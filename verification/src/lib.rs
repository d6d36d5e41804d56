use vstd::prelude::*;

pub mod action_editor;
pub mod cli;
pub mod config;
pub mod describe;
pub mod ipc;
pub mod keys;
pub mod locale;
pub mod main_window;
pub mod mode;
pub mod recorder;
pub mod runtime;
pub mod schedule;
pub mod profile_editor;
pub mod schedule_editor;
pub mod shortcut;
pub mod system;
pub mod text;
