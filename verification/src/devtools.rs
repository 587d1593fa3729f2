//! The devtools command.

use vstd::prelude::*;

verus! {

/// What the host is to do with the window's developer tools.
#[derive(Clone, Copy, Debug, PartialEq, Eq, Structural)]
pub enum DevtoolsAction {
    /// Open them.
    Open,
    /// Leave the window as it is.
    Nothing,
}

/// Decides the devtools command: the tools open in a debug build, and in any other build
/// the command does nothing.
pub fn open_devtools(debug_build: bool) -> (action: DevtoolsAction)
    ensures
        action == (if debug_build {
            DevtoolsAction::Open
        } else {
            DevtoolsAction::Nothing
        }),
{
    if debug_build {
        DevtoolsAction::Open
    } else {
        DevtoolsAction::Nothing
    }
}

} // verus!
