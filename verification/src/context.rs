//! What the runtime hands to an instruction.

use vstd::prelude::*;

verus! {

/// The accounts of `initialize`: there are none.
#[derive(Clone, Copy, Debug, PartialEq, Eq)]
pub struct Initialize {}

/// The inputs of one invocation that are not instruction arguments.
///
/// Any 32 bytes are a well-formed identifier, so every value of this type is
/// a valid context.
#[derive(Debug)]
pub struct Context<T> {
    /// Identifier of the program being run.
    pub program_id: [u8; 32],
    /// The instruction's accounts.
    pub accounts: T,
}

} // verus!
