//! Supervision of external protocol servers: a registry of tenants, the
//! lifecycle of each tenant's servers, and the termination of whole process
//! trees.
//!
//! The library decides and records; what takes time or touches a worker is
//! done by the caller. An operation that has such a part comes in steps:
//! the library admits it, the caller performs it and reports the outcome,
//! and the library says what follows from that outcome.
//!
//! - [`workspace`] keeps one manager for each tenant, and
//!   [`workspace_wrapper`] reaches a manager through the workspace by its id.
//! - [`manager`] registers servers, admits and refuses operations, and says
//!   which events each operation emits.
//! - [`calls`] reads the outcome of a tool call.
//! - [`process_tree`] finds the descendants of a process in a snapshot of
//!   the process table and lays out the order of their termination;
//!   [`terminator`] carries that order out.
//! - [`models`], [`error`] and [`error_codes`] hold the data that crosses
//!   the boundary; [`json`] and [`text`] write it down.
//! - [`registry`] states what is taken on trust of the concurrent map.
//! - [`laws`] proves what holds of the operations taken together.

pub mod calls;
pub mod error;
pub mod error_codes;
pub mod json;
pub mod laws;
pub mod manager;
pub mod models;
pub mod process_tree;
pub mod registry;
pub mod terminator;
pub mod text;
pub mod workspace;
pub mod workspace_wrapper;
