//! Runtime core of a desktop agent-orchestration tool.
//!
//! The crate models four subsystems: a protocol gateway speaking two
//! JSON-RPC dialects (ACP and MCP) with its tool catalog, a stdio
//! subprocess bridge, a binary installation manager with its durable
//! state, and a pseudo-terminal session manager.  The decision logic
//! of each subsystem is verified; operating-system and network
//! effects stand behind a small trusted boundary in `pty_os` and a
//! handful of trusted wrappers beside their callers.

pub mod acp;
pub mod bridge;
pub mod install;
pub mod mcp;
pub mod paths;
pub mod pty;
pub mod pty_os;
pub mod registry;
pub mod state_store;
pub mod strutil;
pub mod tools;
