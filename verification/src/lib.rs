//! gitgud: the state, parsers and editors behind a terminal UI for git that
//! shows every `git` command it runs.

use vstd::prelude::*;

pub mod action;
pub mod app;
pub mod commit_editor;
pub mod git;
pub mod history;
pub mod keymap;
pub mod laws;
pub mod prompt;
pub mod text;
pub mod ui;
