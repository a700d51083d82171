//! Keys as plain values, and the Status view's key-to-action table.

use vstd::prelude::*;
use crate::action::Action;

verus! {

/// The key that was pressed.
#[derive(Clone, Copy, Debug, PartialEq, Eq)]
pub enum KeyCode {
    Char(char),
    Enter,
    Esc,
    Backspace,
    Delete,
    Left,
    Right,
    Up,
    Down,
    Home,
    End,
    Tab,
    BackTab,
    /// Any other key (function keys, media keys, ...).
    Other,
}

/// Modifier keys held during the press.
#[derive(Clone, Copy, Debug, PartialEq, Eq)]
pub struct Modifiers {
    pub shift: bool,
    pub control: bool,
    pub alt: bool,
    pub super_key: bool,
    pub hyper: bool,
    pub meta: bool,
}

/// Whether the key went down, repeated or was released.
#[derive(Clone, Copy, Debug, PartialEq, Eq)]
pub enum KeyKind {
    Press,
    Repeat,
    Release,
}

/// A key event.
#[derive(Clone, Copy, Debug, PartialEq, Eq)]
pub struct Key {
    pub code: KeyCode,
    pub modifiers: Modifiers,
    pub kind: KeyKind,
}

impl Modifiers {
    pub open spec fn none_spec(&self) -> bool {
        !self.shift && !self.control && !self.alt && !self.super_key && !self.hyper && !self.meta
    }

    /// No modifier is held.
    pub fn is_empty(&self) -> (b: bool)
        ensures
            b == self.none_spec(),
    {
        !self.shift && !self.control && !self.alt && !self.super_key && !self.hyper && !self.meta
    }
}

/// `Ctrl+C`, which quits from anywhere.
pub open spec fn is_ctrl_c(k: Key) -> bool {
    k.modifiers.control && k.code == KeyCode::Char('c')
}

/// The Status view's binding of `k`, if any.
pub open spec fn action_for(k: Key) -> Option<Action> {
    if is_ctrl_c(k) {
        Some(Action::Quit)
    } else {
        match k.code {
            KeyCode::Char(c) => if c == 'q' {
                Some(Action::Quit)
            } else if c == 'j' {
                Some(Action::MoveSelection(1i32))
            } else if c == 'k' {
                Some(Action::MoveSelection(-1i32))
            } else if c == 'l' {
                Some(Action::EnterDiff)
            } else if c == 'h' {
                Some(Action::LeaveDiff)
            } else if c == 'r' {
                Some(Action::Refresh)
            } else if c == 's' {
                Some(Action::StageSelected)
            } else if c == 'u' {
                Some(Action::UnstageSelected)
            } else if c == 'X' {
                Some(Action::DiscardSelected)
            } else if c == 'c' {
                Some(Action::Commit)
            } else {
                None
            },
            KeyCode::Down => Some(Action::MoveSelection(1i32)),
            KeyCode::Up => Some(Action::MoveSelection(-1i32)),
            KeyCode::Tab => Some(Action::SwitchPane),
            KeyCode::BackTab => Some(Action::SwitchPaneBack),
            KeyCode::Right => Some(Action::EnterDiff),
            KeyCode::Left => Some(Action::LeaveDiff),
            KeyCode::Esc => Some(Action::Dismiss),
            _ => None,
        }
    }
}

/// Whether `k` is `Ctrl+C`.
pub fn is_quit_chord(k: &Key) -> (b: bool)
    ensures
        b == is_ctrl_c(*k),
{
    k.modifiers.control && match k.code {
        KeyCode::Char(c) => c == 'c',
        _ => false,
    }
}

/// Maps a key to a Status-view action; unbound keys give `None`.
pub fn key_to_action(k: Key) -> (a: Option<Action>)
    ensures
        a == action_for(k),
{
    if is_quit_chord(&k) {
        return Some(Action::Quit);
    }
    match k.code {
        KeyCode::Char(c) => if c == 'q' {
            Some(Action::Quit)
        } else if c == 'j' {
            Some(Action::MoveSelection(1i32))
        } else if c == 'k' {
            Some(Action::MoveSelection(-1i32))
        } else if c == 'l' {
            Some(Action::EnterDiff)
        } else if c == 'h' {
            Some(Action::LeaveDiff)
        } else if c == 'r' {
            Some(Action::Refresh)
        } else if c == 's' {
            Some(Action::StageSelected)
        } else if c == 'u' {
            Some(Action::UnstageSelected)
        } else if c == 'X' {
            Some(Action::DiscardSelected)
        } else if c == 'c' {
            Some(Action::Commit)
        } else {
            None
        },
        KeyCode::Down => Some(Action::MoveSelection(1i32)),
        KeyCode::Up => Some(Action::MoveSelection(-1i32)),
        KeyCode::Tab => Some(Action::SwitchPane),
        KeyCode::BackTab => Some(Action::SwitchPaneBack),
        KeyCode::Right => Some(Action::EnterDiff),
        KeyCode::Left => Some(Action::LeaveDiff),
        KeyCode::Esc => Some(Action::Dismiss),
        _ => None,
    }
}

} // verus!
