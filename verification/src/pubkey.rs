//! Program identifiers: 32 bytes, and the text the chain shows them as.

use anchor_lang::prelude::Pubkey;
use vstd::prelude::*;

verus! {

/// The identifier under which this program is deployed, as raw bytes. Its text
/// form is `Cni9tndj9ApM86C69SugKKFmMFSHQLASCqrfWxn5umg1`.
pub const ID: [u8; 32] = [
    175, 38, 57, 141, 66, 7, 140, 93, 191, 216, 114, 204, 73, 15, 133, 247,
    175, 235, 170, 230, 18, 187, 210, 93, 40, 224, 130, 187, 20, 31, 236, 198,
];

/// The text that `Pubkey`'s `Debug` impl writes for the key whose 32 bytes are
/// `bytes`. `anchor_lang::prelude::Pubkey` is `solana_address::Address` under
/// another name; the impl is the one in that crate.
pub uninterp spec fn pubkey_debug_text(bytes: Seq<u8>) -> Seq<char>;

/// Formats the key made of `bytes` with `Pubkey`'s `Debug` impl (`{:?}`),
/// after `Pubkey::new_from_array` has wrapped the bytes as they are.
///
/// Trusted, not proved: the impl base58-encodes the 32 bytes into a buffer and
/// writes that text to the formatter, reading nothing else and ignoring the
/// formatter's flags, so the result is a function of `bytes` alone. Which
/// characters come out is not claimed here.
#[verifier::external_body]
pub(crate) fn pubkey_debug(bytes: &[u8; 32]) -> (text: String)
    ensures
        text@ == pubkey_debug_text(bytes@),
{
    format!("{:?}", Pubkey::new_from_array(*bytes))
}

/// This program's identifier.
pub fn id() -> (own: [u8; 32])
    ensures
        own@ == ID@,
{
    ID
}

/// Whether `id` is this program's identifier.
pub fn check_id(id: &[u8; 32]) -> (same: bool)
    ensures
        same == (id@ == ID@),
{
    let mut i: usize = 0;
    while i < 32
        invariant
            i <= 32,
            forall|k: int| 0 <= k < i ==> id@[k] == ID@[k],
        decreases 32 - i,
    {
        if id[i] != ID[i] {
            return false;
        }
        i += 1;
    }
    assert(id@ =~= ID@);
    true
}

} // verus!
