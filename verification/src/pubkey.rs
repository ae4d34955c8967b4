//! Public keys: 32-byte values that name signers and storage addresses.

use core::str::FromStr;
use vstd::prelude::*;

verus! {

/// Number of bytes in a public key.
pub const PUBKEY_BYTES: usize = 32;

/// A signer's key or a storage address.
#[derive(Clone, Copy, Debug)]
pub struct Pubkey {
    pub bytes: [u8; 32],
}

impl View for Pubkey {
    type V = Seq<u8>;

    open spec fn view(&self) -> Seq<u8> {
        self.bytes@
    }
}

impl Pubkey {
    /// Wraps 32 bytes as a key.
    pub fn new_from_array(bytes: [u8; 32]) -> (key: Pubkey)
        ensures
            key@ == bytes@,
            key.bytes == bytes,
    {
        Pubkey { bytes }
    }

    /// The key's bytes.
    pub fn to_bytes(&self) -> (bytes: [u8; 32])
        ensures
            bytes@ == self@,
    {
        self.bytes
    }

    /// Byte-for-byte comparison of two keys.
    pub fn key_eq(&self, other: &Pubkey) -> (same: bool)
        ensures
            same == (self@ == other@),
    {
        let mut i: usize = 0;
        while i < PUBKEY_BYTES
            invariant
                i <= PUBKEY_BYTES,
                forall|j: int| 0 <= j < i ==> self@[j] == other@[j],
            decreases PUBKEY_BYTES - i,
        {
            if self.bytes[i] != other.bytes[i] {
                return false;
            }
            i += 1;
        }
        assert(self@ =~= other@);
        true
    }
}

/// An optional key as a sequence of bytes.
pub open spec fn key_view(key: Option<Pubkey>) -> Option<Seq<u8>> {
    match key {
        Some(k) => Some(k@),
        None => None,
    }
}

/// The key that a base58 string stands for, as `Pubkey::from_str` of the
/// Solana SDK decodes it; `None` where that function rejects the string.
pub uninterp spec fn pubkey_from_str(s: Seq<char>) -> Option<Seq<u8>>;

/// Calls `anchor_lang::prelude::Pubkey::from_str`, the base58 decoder of
/// keys. Nothing is proved of it: the contract gives the outcome a name, the
/// decoded bytes or `None` for a string that the decoder rejects.
#[verifier::external_body]
pub(crate) fn decode_pubkey(s: &str) -> (key: Option<Pubkey>)
    ensures
        key_view(key) == pubkey_from_str(s@),
{
    match anchor_lang::prelude::Pubkey::from_str(s) {
        Ok(k) => Some(Pubkey { bytes: k.to_bytes() }),
        Err(_) => None,
    }
}

} // verus!
