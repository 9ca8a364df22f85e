//! Provisioning toolkit: port allocation, idempotent configuration
//! edits, command execution with a dry-run mode, and lifecycle polling.

pub mod blocks;
pub mod bq;
pub mod chars;
pub mod containers;
pub mod errors;
pub mod monitor;
pub mod network;
pub mod script;
pub mod utils;
pub mod yaml;
