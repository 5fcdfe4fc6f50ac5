//! Verified core of the mize development module: the registry of buildables,
//! the line protocols spoken between the module and its build helper, the
//! build status board, and the terminal interface's state machine.
pub mod board;
pub mod commands;
pub mod config;
pub mod data;
pub mod error;
pub mod keys;
pub mod modules;
pub mod protocol;
pub mod table;
pub mod text;
pub mod tui;
