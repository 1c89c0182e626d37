//! The window-manager core of a tray-resident launcher of small pinned
//! windows ("tabs"): the store of tab records, the decisions of the
//! coordinator that owns it, and the plan of each resize animation.
//!
//! Everything here works on plain values. Reading directories and files,
//! encoding records, and driving the windowing host belong to the program
//! around this library, which performs the [`window_manager::Action`]s that
//! the coordinator hands out.

pub mod animation;
pub mod config_manager;
pub mod label;
pub mod paths;
pub mod window_commands;
pub mod window_config;
pub mod window_manager;
