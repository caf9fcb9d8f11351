//! Directory listing engine: entry resolution, cycle-safe recursive descent
//! and multi-column layout, with every rule stated as a contract.

pub mod args;
pub mod error;
pub mod exit_status;
pub mod filesystem;
pub mod math;
pub mod orchestrator;
pub mod print;
pub mod text;
pub mod working_set;
