# Tuivir

A provider-agnostic terminal interface for inspecting and managing virtual
machines, containers, and microVMs, with its logic written and proved in Verus.

- `src/` is the verified library.
  - `application/`: keys, Commands and their configuration, Provider Workspaces,
    and the single-owner state machine that ties them together.
  - `presentation/`: the screen's layout, what is drawn on it, and what the
    mouse means there.
  - `infrastructure/`: what Provider CLIs and files are asked for, and what is
    made of their answers.
  - `host/`: where terminal input goes, the bytes that terminals and the
    clipboard are sent, and when deferred work starts.
- `tests/` runs the library on concrete values.
- `app/` is the program around it: the terminal, processes, PTYs and files.

Each type has a mathematical view, and each function's contract says what it
makes of those views. Proof functions whose names begin with `law_` state what
holds of several operations together.
