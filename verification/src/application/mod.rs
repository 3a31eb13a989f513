//! Application policy: Commands, their Keybindings, Provider Workspaces, and the
//! single-owner state machine that ties them together.

pub mod app;
pub mod command;
pub mod key;
pub mod key_laws;
pub mod keybinding;
pub mod pane_boundary;
pub mod provider;
pub mod resource_shell_controls;
pub mod shell;
pub mod workspace;

pub use app::state::{
    AppState, FocusedPane, HelpEntry, HelpOverlay, KeyHints, ResourceCommandInvocation,
    RunningResourceCommand,
};
pub use app::{App, AppEvent};
pub use command::defaults::NUMBERED_RESOURCE_PANEL_CAPACITY;
pub use command::{Command, CommandRegistry, CommandScope, EffectiveCommand, ResourceCommand};
pub use key::{InvalidKey, Key, KeyCode, Named};
pub use keybinding::KeybindingError;
pub use pane_boundary::PaneBoundary;
pub use provider::{
    lifecycle_commands, DetailView, LifecycleCommandPolicy, ProviderRequest, ProviderRequestId,
    Resource, ResourceDetails, ResourcePanel, WorkspaceError, WorkspaceSnapshot,
};
pub use resource_shell_controls::ResourceShellControls;
pub use shell::{
    InteractiveShellProcess, ResourceShellEffect, ResourceShellPresentation, ResourceShellProcess,
    ResourceShellSession, ResourceShellSessionId, ResourceShellSessionLifecycle,
};
pub use workspace::view::{
    ResourceDetailsView, ResourcePanelView, WorkspacePresentation, WorkspaceView,
};
pub use workspace::{
    DetailCompletion, DetailContent, DetailLoad, DetailPosition, DetailSelection, ProviderWorkspaceState,
    WorkspaceLoadState,
};
