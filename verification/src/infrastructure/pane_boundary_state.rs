//! The durable, runtime-owned Pane Boundary preference.
//!
//! It deliberately lives in the XDG state directory rather than the user's
//! configuration file: resizing is application state, not hand-authored setup.

use vstd::prelude::*;
use vstd::string::*;

use super::paths::{absolute, is_absolute, join, joined_path};
use crate::application::pane_boundary::{default_boundary, usable, BoundaryModel, PaneBoundary};
use crate::text::{decimal, opt_view, push_decimal};

verus! {

/// Environment values used to locate Tuivir's XDG state file.
#[derive(Debug, PartialEq, Eq)]
pub struct Env {
    pub xdg_state_home: Option<String>,
    pub home: Option<String>,
}

#[verifier::ext_equal]
pub struct StateEnvModel {
    pub xdg_state_home: Option<Seq<char>>,
    pub home: Option<Seq<char>>,
}

impl View for Env {
    type V = StateEnvModel;

    open spec fn view(&self) -> StateEnvModel {
        StateEnvModel {
            xdg_state_home: opt_view(self.xdg_state_home),
            home: opt_view(self.home),
        }
    }
}

impl Default for Env {
    fn default() -> (env: Self)
        ensures
            env@ == (StateEnvModel { xdg_state_home: None, home: None }),
    {
        Env { xdg_state_home: None, home: None }
    }
}

/// The directory that state files lie in.
pub open spec fn state_root(env: StateEnvModel) -> Option<Seq<char>> {
    match env.xdg_state_home {
        Some(xdg) => if is_absolute(xdg) {
            Some(xdg)
        } else {
            home_state(env)
        },
        None => home_state(env),
    }
}

pub open spec fn home_state(env: StateEnvModel) -> Option<Seq<char>> {
    match env.home {
        Some(home) => Some(joined_path(home, ".local/state"@)),
        None => None,
    }
}

/// The file that the preference lies in.
pub open spec fn preference_path(env: StateEnvModel) -> Option<Seq<char>> {
    match state_root(env) {
        Some(root) => Some(joined_path(joined_path(root, "tuivir"@), "pane-boundary.json"@)),
        None => None,
    }
}

/// What is written of a boundary.
pub open spec fn saved_text(boundary: BoundaryModel) -> Seq<char> {
    "{\"resources_percent\":"@ + decimal(boundary.percent as nat) + "}"@
}

/// The boundary that a saved share stands for. Obsolete state never blocks
/// startup: what is no usable share counts as none.
pub open spec fn restored(saved: Option<u16>) -> BoundaryModel {
    match saved {
        Some(percent) => if usable(percent as int) == percent {
            BoundaryModel { percent: percent as int, grab: None }
        } else {
            default_boundary()
        },
        None => default_boundary(),
    }
}

pub fn state_path(env: &Env) -> (path: Option<String>)
    ensures
        opt_view(path) == preference_path(env@),
{
    let root = match &env.xdg_state_home {
        Some(xdg) => if absolute(xdg.as_str()) {
            xdg.clone()
        } else {
            match &env.home {
                Some(home) => join(home.as_str(), ".local/state"),
                None => return None,
            }
        },
        None => match &env.home {
            Some(home) => join(home.as_str(), ".local/state"),
            None => return None,
        },
    };
    let directory = join(root.as_str(), "tuivir");
    Some(join(directory.as_str(), "pane-boundary.json"))
}

/// Restores the last valid preference, never allowing obsolete state to block
/// startup or overwrite the compiled default.
pub fn load(saved: Option<u16>) -> (boundary: PaneBoundary)
    ensures
        boundary@ == restored(saved),
{
    match saved {
        Some(percent) => {
            if PaneBoundary::is_valid_percent(percent) {
                PaneBoundary::new(percent)
            } else {
                PaneBoundary::default()
            }
        },
        None => PaneBoundary::default(),
    }
}

/// A file to be written, and its contents.
#[derive(Debug, PartialEq, Eq)]
pub struct StateWrite {
    pub path: String,
    pub contents: String,
}

/// What saving a boundary writes: a user-selected Pane Boundary, where there is
/// a place for it. Launching never calls this function, so it does not create
/// a state file by itself.
pub fn save(env: &Env, boundary: PaneBoundary) -> (write: Option<StateWrite>)
    ensures
        write is Some <==> preference_path(env@) is Some,
        write matches Some(write) ==> Some(write.path@) == preference_path(env@)
            && write.contents@ == saved_text(boundary@),
{
    match state_path(env) {
        Some(path) => {
            let mut contents = "{\"resources_percent\":".to_owned();
            push_decimal(&mut contents, boundary.resources_percent() as u64);
            contents.append("}");
            Some(StateWrite { path, contents })
        },
        None => None,
    }
}

/// A share that was saved is the share that is restored.
pub proof fn law_a_saved_share_is_restored(boundary: BoundaryModel)
    requires
        boundary.in_range(),
    ensures
        restored(Some(boundary.percent as u16)).percent == boundary.percent,
{
}

/// Whatever is restored leaves both Panes usable.
pub proof fn law_a_restored_boundary_is_in_range(saved: Option<u16>)
    ensures
        restored(saved).in_range(),
{
}

} // verus!
