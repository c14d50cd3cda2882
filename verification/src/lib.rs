//! A minimal on-chain program: one instruction, `initialize`, that takes no
//! accounts and greets with the identifier of the program being run.
//!
//! The instruction computes the line to log and hands it back; emitting it is
//! left to the caller, which owns the runtime's log.

pub mod context;
pub mod pubkey;
pub mod vest_rust;

pub use crate::context::{Context, Initialize};
pub use crate::pubkey::{check_id, id, ID};
pub use crate::vest_rust::{greeting, initialize, GREETING_PREFIX};
