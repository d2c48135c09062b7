//! The verified core of a standalone terminal application: what a command line
//! and a startup configuration ask for, which window they open, and what the
//! menus, the command palette and the reports show.
//!
//! Nothing here reads or writes the disk. Functions that depend on it take
//! what was found there as plain values.

pub mod actions;
pub mod cli;
pub mod command;
pub mod config;
pub mod config_files;
pub mod config_laws;
pub mod default_profile;
pub mod directory;
pub mod doctor;
pub mod error;
pub mod error_laws;
pub mod keymap;
pub mod launch;
pub mod launch_laws;
pub mod launch_tab;
pub mod laws;
pub mod layout;
pub mod lookups;
pub mod menu;
pub mod menu_laws;
pub mod name_map;
pub mod palette;
pub mod path_parts;
pub mod paths;
pub mod profiles;
pub mod report;
pub mod terminal_tab;
pub mod text;
pub mod text_laws;
pub mod validation;
pub mod window;
