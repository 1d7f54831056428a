//! A file-watching task runner with an integrated HTTP dev server.
//!
//! The library holds the operation runtime: the operation model with its
//! outcomes, the execution context stack with scoped variables, the
//! watch/debounce state machine, the child-process supervision rules, and
//! the dev-server coupling (HTML injection, reload fan-out, readiness
//! polling). Everything here is verified; the surrounding binary performs
//! the actual I/O and drives these decision procedures.

pub mod args;
pub mod cfg;
pub mod config;
pub mod context;
pub mod error;
pub mod http;
pub mod op;
pub mod step;
pub mod task;
pub mod ui;
