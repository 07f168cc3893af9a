use vstd::prelude::*;

pub mod text;
pub mod protocol;
pub mod reasoning_harness;
pub mod upstream_adapter;
pub mod provider;
pub mod orchestrator;
pub mod policy;
pub mod prompt;
pub mod history;
pub mod slash;
pub mod commands;
pub mod palette;
pub mod view_model;
pub mod render;
pub mod shell;
pub mod overlay;
pub mod notifications;
pub mod keys;
pub mod vim;
pub mod keymap;
pub mod scenarios;
pub mod agently;
pub mod config_commands;
pub mod session;
pub mod markdown;
pub mod turn;
pub mod shell_input;
pub mod tools;

verus! {
} // verus!
pub mod theme;
pub mod panes;
pub mod session_loop;
