//! A snapshot of the process environment, taken once at startup, and the
//! policy that picks a pager which is safe to drive from a program.
//!
//! - `env` holds the snapshot, `DeltaEnv`, and what is proved of a capture.
//! - `environment` holds the record of variables that a capture reads.
//! - `pager` holds the pager policy and the resolver.
//! - `text` holds the string comparison that the others rest on.
//! - `trusted` holds the few items that are believed rather than proved.

pub mod env;
pub mod environment;
pub mod pager;
pub mod text;
mod trusted;
