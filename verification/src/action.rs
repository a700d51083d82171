//! Decoded user intent for the Status view.

use vstd::prelude::*;

verus! {

/// Keys map to actions in `keymap`; the app decides how each one changes
/// state.
#[derive(Clone, Copy, Debug, PartialEq, Eq)]
pub enum Action {
    Quit,
    MoveSelection(i32),
    /// `Tab`: flip between the Unstaged and Staged file panes.
    SwitchPane,
    /// `Shift+Tab`: the same flip in the other direction.
    SwitchPaneBack,
    /// `l`/`Right`: focus the diff pane.
    EnterDiff,
    /// `h`/`Left`: leave the diff pane.
    LeaveDiff,
    Refresh,
    StageSelected,
    UnstageSelected,
    DiscardSelected,
    Commit,
    Dismiss,
}

} // verus!
