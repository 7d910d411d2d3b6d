//! Verified core of the Hoards terminal interface: the state machines,
//! menus, fuzzy search and version logic behind the TUI.

use vstd::prelude::*;

pub mod text;
pub mod config;
pub mod types;
pub mod config_menu;
pub mod pending;
pub mod history;
pub mod undo;
pub mod notification;
pub mod fuzzy;
pub mod version;
pub mod updates;
pub mod command;
pub mod commands;
pub mod lists;
pub mod theme;
pub mod mouse;
pub mod readme;
pub mod manager_output;
pub mod cache;
pub mod tools;
pub mod install;
pub mod analysis;
pub mod requests;
pub mod keys;
pub mod labels;
pub mod discover;
pub mod display;
pub mod styled;
pub mod footer;
pub mod overlay;
pub mod dialogs;
pub mod toasts;
pub mod search_bar;
pub mod config_view;
pub mod details;
pub mod json;
pub mod github;
pub mod dates;
pub mod session;

verus! {

} // verus!
