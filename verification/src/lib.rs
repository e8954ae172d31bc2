//! State model of a terminal browser for locally installed game instances:
//! the instance records, their ordering and filtering, the selection cursor
//! and the key-driven view-state machine.

pub mod app;
pub mod cursor;
pub mod decimal;
pub mod filter;
pub mod format;
pub mod instance;
pub mod mods;
pub mod paths;
pub mod process;
pub mod repository;
pub mod screen;
pub mod sort;
pub mod sort_mode;
pub mod text;
