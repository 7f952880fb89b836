//! Verified core of an MCP server for `wtp` (Git Worktree Plus).

/// Configuration types and CLI merge rules.
pub mod config;
/// Error types and Result alias for the library.
pub mod errors;
mod foreign;
/// Resource views of the worktree inventory.
pub mod resources;
/// Tool parameters, listed resources and resource routing of the MCP server.
pub mod server;
/// Security policy checks and guards.
pub mod security;
/// Character-level text operations.
pub mod text;
/// Tool inputs, outputs and the rules of each tool.
pub mod tools;
/// Shared data types used across tools and responses.
pub mod types;
/// Low-level wtp command helpers and parsers.
pub mod wtp;
mod wtp_binary;
/// Parser of `wtp list` output and its specification.
pub mod wtp_parser;
mod wtp_runner;
