//! Deterministic addressing: every record lives at an address derived from
//! fixed seeds and the program's identity, so no directory of records exists.

use vstd::prelude::*;
use vstd::slice::slice_to_vec;
use crate::pubkey::Pubkey;

verus! {

/// The program's identity, `GQ61yFy7WV7oen2dWvUjpDAYPAxhuZcUZAShh8WScXu2`
/// in base58. One constant serves every derivation.
pub const ID: [u8; 32] = [
    228, 201, 85, 190, 16, 225, 132, 93, 180, 32, 107, 167, 154, 94, 44, 212,
    181, 143, 34, 79, 134, 47, 110, 163, 21, 4, 135, 99, 56, 135, 216, 233,
];

/// The seed of every personal counter: the bytes of `user_account`.
pub const USER_SEED: [u8; 12] = [117, 115, 101, 114, 95, 97, 99, 99, 111, 117, 110, 116];

/// The only seed of the shared counter: the bytes of `global_account`.
pub const GLOBAL_SEED: [u8; 14] = [103, 108, 111, 98, 97, 108, 95, 97, 99, 99, 111, 117, 110, 116];

/// The program's identity.
pub open spec fn program_id() -> Seq<u8> {
    ID@
}

/// The seed of every personal counter.
pub open spec fn user_seed() -> Seq<u8> {
    USER_SEED@
}

/// The only seed of the shared counter.
pub open spec fn global_seed() -> Seq<u8> {
    GLOBAL_SEED@
}

/// The seeds of the personal counter that belongs to `user`.
pub open spec fn user_account_seeds(user: Seq<u8>) -> Seq<Seq<u8>> {
    seq![user_seed(), user]
}

/// The seeds of the shared counter.
pub open spec fn global_account_seeds() -> Seq<Seq<u8>> {
    seq![global_seed()]
}

/// What `Pubkey::try_find_program_address` of the Solana SDK returns for
/// these seeds and this program: the derived address with its bump seed, or
/// `None` where no bump seed gives a valid address.
pub uninterp spec fn program_address(
    seeds: Seq<Seq<u8>>,
    program_id: Seq<u8>,
) -> Option<(Seq<u8>, u8)>;

/// The seeds as sequences of bytes.
pub open spec fn seeds_view(seeds: Seq<Vec<u8>>) -> Seq<Seq<u8>> {
    seeds.map_values(|seed: Vec<u8>| seed@)
}

/// The address part of a derivation.
pub open spec fn address_of(found: Option<(Seq<u8>, u8)>) -> Option<Seq<u8>> {
    match found {
        Some((address, _)) => Some(address),
        None => None,
    }
}

/// A derivation with its address as a sequence of bytes.
pub open spec fn found_view(found: Option<(Pubkey, u8)>) -> Option<(Seq<u8>, u8)> {
    match found {
        Some((address, bump)) => Some((address@, bump)),
        None => None,
    }
}

/// The address of the personal counter of `user`, where one can be derived.
pub open spec fn user_account_address(user: Seq<u8>) -> Option<Seq<u8>> {
    address_of(program_address(user_account_seeds(user), program_id()))
}

/// The address of the shared counter, where one can be derived.
pub open spec fn global_account_address() -> Option<Seq<u8>> {
    address_of(program_address(global_account_seeds(), program_id()))
}

/// The program's identity.
pub fn id() -> (key: Pubkey)
    ensures
        key@ == program_id(),
{
    Pubkey { bytes: ID }
}

/// Calls `anchor_lang::prelude::Pubkey::try_find_program_address`, which
/// tries the bump seeds from 255 downwards and returns the first address
/// that lies off the curve, or `None`. Nothing is proved of it: the contract
/// gives the outcome a name.
#[verifier::external_body]
fn try_find_program_address(
    seeds: &Vec<Vec<u8>>,
    program_id: &Pubkey,
) -> (found: Option<(Pubkey, u8)>)
    ensures
        found_view(found) == program_address(seeds_view(seeds@), program_id@),
{
    let parts: Vec<&[u8]> = seeds.iter().map(|seed| seed.as_slice()).collect();
    let program = anchor_lang::prelude::Pubkey::new_from_array(program_id.bytes);
    match anchor_lang::prelude::Pubkey::try_find_program_address(&parts, &program) {
        Some((address, bump)) => Some((Pubkey { bytes: address.to_bytes() }, bump)),
        None => None,
    }
}

/// Derives the address of the personal counter of `user`, with its bump seed.
pub fn find_user_account_address(user: &Pubkey) -> (found: Option<(Pubkey, u8)>)
    ensures
        found_view(found) == program_address(user_account_seeds(user@), program_id()),
        address_of(found_view(found)) == user_account_address(user@),
{
    let mut seeds: Vec<Vec<u8>> = Vec::new();
    seeds.push(slice_to_vec(USER_SEED.as_slice()));
    seeds.push(slice_to_vec(user.bytes.as_slice()));
    assert(seeds_view(seeds@) =~= user_account_seeds(user@));
    try_find_program_address(&seeds, &id())
}

/// Derives the address of the shared counter, with its bump seed.
pub fn find_global_account_address() -> (found: Option<(Pubkey, u8)>)
    ensures
        found_view(found) == program_address(global_account_seeds(), program_id()),
        address_of(found_view(found)) == global_account_address(),
{
    let mut seeds: Vec<Vec<u8>> = Vec::new();
    seeds.push(slice_to_vec(GLOBAL_SEED.as_slice()));
    assert(seeds_view(seeds@) =~= global_account_seeds());
    try_find_program_address(&seeds, &id())
}

} // verus!
