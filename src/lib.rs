//! A reversible `rm`: targets are moved into a trash directory, the most
//! recent batch can be undone, and permanent deletion is guarded.
//!
//! The library holds the decisions of the tool (names in the trash, the undo
//! journal's format and replay, the ancestor guard, the texts it logs and
//! shows); the program around it performs the filesystem work.
use vstd::prelude::*;

pub mod audit;
pub mod error;
pub mod journal;
pub mod mover;
pub mod naming;
pub mod paths;
pub mod size;
pub mod text;
pub mod undo;

verus! {

/// Where the trash lives, and whether clearing it asks for confirmation.
pub struct Config {
    pub location: String,
    pub need_confirm_again: bool,
}

/// The action one invocation performs.
#[derive(Clone, Copy, Debug, PartialEq, Eq, Structural)]
pub enum Action {
    /// Move the last batch back.
    Undo,
    /// List the trash.
    Browse,
    /// Delete the targets: for good when `forever` holds, else into the trash.
    Delete { forever: bool },
    /// Empty the trash.
    Clear,
    /// Nothing was asked.
    Nothing,
}

/// The targets and flags given on the command line.
#[derive(Debug)]
pub struct UserCommand {
    pub targets: Vec<String>,
    /// Delete for good.
    pub f: bool,
    /// Clear the trash.
    pub c: bool,
    /// Undo the last batch.
    pub z: bool,
    /// Browse the trash.
    pub b: bool,
}

/// The action of a command: undo first, then browse, then deleting the
/// targets if there are any, then clearing.
pub open spec fn action_of(has_targets: bool, f: bool, c: bool, z: bool, b: bool) -> Action {
    if z {
        Action::Undo
    } else if b {
        Action::Browse
    } else if has_targets {
        Action::Delete { forever: f }
    } else if c {
        Action::Clear
    } else {
        Action::Nothing
    }
}

impl UserCommand {
    pub fn new(files: Vec<String>, f: bool, c: bool, z: bool, b: bool) -> (r: UserCommand)
        ensures
            r.targets@ == files@,
            r.f == f && r.c == c && r.z == z && r.b == b,
    {
        UserCommand { targets: files, f, c, z, b }
    }

    /// The one action this command performs.
    pub fn action(&self) -> (r: Action)
        ensures
            r == action_of(self.targets@.len() > 0, self.f, self.c, self.z, self.b),
    {
        if self.z {
            Action::Undo
        } else if self.b {
            Action::Browse
        } else if self.targets.len() > 0 {
            Action::Delete { forever: self.f }
        } else if self.c {
            Action::Clear
        } else {
            Action::Nothing
        }
    }
}

} // verus!
