//! Reconciliation of a master set of MCP server entries with the
//! configuration files of individual tools.
//!
//! The library decides and computes; it reads no file, no clock and no
//! store. Its callers hand it what they read and carry out what it decides.

pub mod agentctl;
pub mod api;
pub mod config;
pub mod db;
pub mod error;
pub mod sync;
