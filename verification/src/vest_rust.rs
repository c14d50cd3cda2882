//! The program's instructions.

use crate::context::{Context, Initialize};
use crate::pubkey::{pubkey_debug, pubkey_debug_text};
use core::convert::Infallible;
use vstd::prelude::*;

verus! {

/// What every greeting starts with.
pub const GREETING_PREFIX: &'static str = "Greetings from: ";

/// The greeting for a program whose identifier reads `id_text`.
pub open spec fn greeting_text(id_text: Seq<char>) -> Seq<char> {
    GREETING_PREFIX@ + id_text
}

/// `needle` stands in `hay` from position `at` on.
pub open spec fn occurs_at(hay: Seq<char>, needle: Seq<char>, at: int) -> bool {
    &&& 0 <= at
    &&& at + needle.len() <= hay.len()
    &&& hay.subrange(at, at + needle.len()) == needle
}

/// A greeting holds the identifier's text, whole, right after the prefix.
pub proof fn lemma_greeting_holds_id(id_text: Seq<char>)
    ensures
        occurs_at(greeting_text(id_text), id_text, GREETING_PREFIX@.len() as int),
{
    let line = greeting_text(id_text);
    let at = GREETING_PREFIX@.len() as int;
    assert(line.subrange(at, at + id_text.len()) =~= id_text);
}

/// Builds the line to log for a program whose identifier reads `id_text`.
pub fn greeting(id_text: &str) -> (line: String)
    ensures
        line@ == greeting_text(id_text@),
        occurs_at(line@, id_text@, GREETING_PREFIX@.len() as int),
{
    let mut line = String::from_str(GREETING_PREFIX);
    line.append(id_text);
    proof {
        lemma_greeting_holds_id(id_text@);
    }
    line
}

/// The one instruction. It takes no accounts, cannot fail, and returns the
/// line for the caller to log: the greeting that names the running program.
pub fn initialize(ctx: Context<Initialize>) -> (res: Result<String, Infallible>)
    ensures
        res is Ok,
        res->Ok_0@ == greeting_text(pubkey_debug_text(ctx.program_id@)),
        occurs_at(
            res->Ok_0@,
            pubkey_debug_text(ctx.program_id@),
            GREETING_PREFIX@.len() as int,
        ),
{
    let id_text = pubkey_debug(&ctx.program_id);
    Ok(greeting(id_text.as_str()))
}

} // verus!
