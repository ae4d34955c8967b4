//! The four instructions. Each names the accounts it works on; the program
//! derives the addresses again from the caller's key and refuses an account
//! that sits elsewhere, so a caller reaches no personal counter but its own.

use vstd::prelude::*;
use crate::address::{
    address_of, find_global_account_address, find_user_account_address, found_view,
    global_account_address, user_account_address,
};
use crate::error::CustomError;
use crate::pubkey::{decode_pubkey, key_view, pubkey_from_str, Pubkey};
use crate::state::{GlobalAccount, UserAccount};
use crate::store::AccountStore;

verus! {

/// The one key that may create the shared counter, in base58. It is fixed
/// when the program is built: nothing can replace it afterwards.
pub const ADMIN: &'static str = "4ndmLd7zdcvXz9T3VrNeQaX6Tz3jGhmB93UZwqcMLen8";

/// The accounts of `initialize`.
#[derive(Clone, Copy, Debug)]
pub struct Initialize {
    /// Where the caller's personal counter is to be created.
    pub user_account: Pubkey,
    /// The caller, who signs and pays.
    pub user: Pubkey,
}

/// The accounts of `initialize_global`.
#[derive(Clone, Copy, Debug)]
pub struct InitializeGlobal {
    /// Where the shared counter is to be created.
    pub global_account: Pubkey,
    /// The caller, who signs and pays.
    pub user: Pubkey,
}

/// The accounts of `close`.
#[derive(Clone, Copy, Debug)]
pub struct CloseAccount {
    /// The caller's personal counter.
    pub user_account: Pubkey,
    /// The caller, who signs and gets the storage back.
    pub user: Pubkey,
}

/// The accounts of `increment`.
#[derive(Clone, Copy, Debug)]
pub struct Increment {
    /// The caller's personal counter.
    pub user_account: Pubkey,
    /// The shared counter.
    pub global_account: Pubkey,
    /// The caller, who signs.
    pub user: Pubkey,
}

/// What an instruction answers and the store it leaves.
pub struct Outcome {
    pub result: Result<(), CustomError>,
    pub accounts: Map<Seq<u8>, Seq<u8>>,
}

/// The outcome of a refused instruction: the error, and nothing changed.
pub open spec fn refused(error: CustomError, accounts: Map<Seq<u8>, Seq<u8>>) -> Outcome {
    Outcome { result: Err(error), accounts }
}

/// The outcome of an accepted instruction.
pub open spec fn accepted(accounts: Map<Seq<u8>, Seq<u8>>) -> Outcome {
    Outcome { result: Ok(()), accounts }
}

/// The personal counter stored at `address`, if one is.
pub open spec fn user_record(
    accounts: Map<Seq<u8>, Seq<u8>>,
    address: Seq<u8>,
) -> Option<UserAccount> {
    if accounts.contains_key(address) {
        UserAccount::decoding(accounts[address])
    } else {
        None
    }
}

/// The shared counter stored at `address`, if one is.
pub open spec fn global_record(
    accounts: Map<Seq<u8>, Seq<u8>>,
    address: Seq<u8>,
) -> Option<GlobalAccount> {
    if accounts.contains_key(address) {
        GlobalAccount::decoding(accounts[address])
    } else {
        None
    }
}

/// The designated authority, where the constant decodes to a key.
pub open spec fn authority() -> Option<Seq<u8>> {
    pubkey_from_str(ADMIN@)
}

/// `initialize`, given the address derived for the caller. It is refused
/// with `NotFound` unless the account named sits at that address, and with
/// `AlreadyInitialized` where the address is occupied. Otherwise a personal
/// counter at zero is stored there.
pub open spec fn initialize_outcome(
    pre: Map<Seq<u8>, Seq<u8>>,
    ctx: Initialize,
    user_pda: Option<Seq<u8>>,
) -> Outcome {
    if user_pda != Some(ctx.user_account@) {
        refused(CustomError::NotFound, pre)
    } else if pre.contains_key(ctx.user_account@) {
        refused(CustomError::AlreadyInitialized, pre)
    } else {
        accepted(pre.insert(ctx.user_account@, UserAccount { personal_counter: 0 }.encoding()))
    }
}

/// `initialize_global`, given the address derived for the shared counter
/// and the designated authority. It is refused with `NotFound` unless the
/// account named sits at that address, with `AlreadyInitialized` where the
/// address is occupied, and then with `UnauthorizedCaller` unless the caller
/// is the authority. Otherwise the shared counter is stored there at zero.
pub open spec fn initialize_global_outcome(
    pre: Map<Seq<u8>, Seq<u8>>,
    ctx: InitializeGlobal,
    global_pda: Option<Seq<u8>>,
    authority: Option<Seq<u8>>,
) -> Outcome {
    if global_pda != Some(ctx.global_account@) {
        refused(CustomError::NotFound, pre)
    } else if pre.contains_key(ctx.global_account@) {
        refused(CustomError::AlreadyInitialized, pre)
    } else if authority != Some(ctx.user@) {
        refused(CustomError::UnauthorizedCaller, pre)
    } else {
        accepted(pre.insert(ctx.global_account@, GlobalAccount { global_counter: 0 }.encoding()))
    }
}

/// `close`, given the address derived for the caller. It is refused with
/// `NotFound` unless the account named sits at that address and holds a
/// personal counter. Otherwise the address is freed.
pub open spec fn close_outcome(
    pre: Map<Seq<u8>, Seq<u8>>,
    ctx: CloseAccount,
    user_pda: Option<Seq<u8>>,
) -> Outcome {
    if user_pda != Some(ctx.user_account@) || user_record(pre, ctx.user_account@) is None {
        refused(CustomError::NotFound, pre)
    } else {
        accepted(pre.remove(ctx.user_account@))
    }
}

/// `increment`, given the addresses derived for the caller and for the
/// shared counter. It is refused with `NotFound` unless both accounts named
/// sit at those addresses and hold a record of their kind, and with
/// `ArithmeticOverflow` where either counter is at its largest value.
/// Otherwise both records are stored again with their counters one higher.
pub open spec fn increment_outcome(
    pre: Map<Seq<u8>, Seq<u8>>,
    ctx: Increment,
    user_pda: Option<Seq<u8>>,
    global_pda: Option<Seq<u8>>,
) -> Outcome {
    if user_pda != Some(ctx.user_account@) || global_pda != Some(ctx.global_account@) {
        refused(CustomError::NotFound, pre)
    } else {
        match (user_record(pre, ctx.user_account@), global_record(pre, ctx.global_account@)) {
            (Some(personal), Some(global)) => {
                if personal.personal_counter == u64::MAX || global.global_counter == u64::MAX {
                    refused(CustomError::ArithmeticOverflow, pre)
                } else {
                    accepted(
                        pre.insert(
                            ctx.user_account@,
                            UserAccount {
                                personal_counter: (personal.personal_counter + 1) as u64,
                            }.encoding(),
                        ).insert(
                            ctx.global_account@,
                            GlobalAccount {
                                global_counter: (global.global_counter + 1) as u64,
                            }.encoding(),
                        ),
                    )
                }
            },
            _ => refused(CustomError::NotFound, pre),
        }
    }
}

/// Whether `account` sits at the address that was derived.
fn is_derived(account: &Pubkey, derived: &Option<Pubkey>) -> (same: bool)
    ensures
        same == (key_view(*derived) == Some(account@)),
{
    match derived {
        Some(address) => address.key_eq(account),
        None => false,
    }
}

/// The authorization gate: passes the designated authority and nobody else.
pub fn check_authority(
    caller: &Pubkey,
    authority: &Option<Pubkey>,
) -> (result: Result<(), CustomError>)
    ensures
        result == if key_view(*authority) == Some(caller@) {
            Ok::<(), CustomError>(())
        } else {
            Err::<(), CustomError>(CustomError::UnauthorizedCaller)
        },
{
    match authority {
        Some(allowed_signer) => {
            if allowed_signer.key_eq(caller) {
                Ok(())
            } else {
                Err(CustomError::UnauthorizedCaller)
            }
        },
        None => Err(CustomError::UnauthorizedCaller),
    }
}

/// Raises both counters by one, or neither where one of them is at its
/// largest value.
pub fn increment_both(
    personal: &mut UserAccount,
    global: &mut GlobalAccount,
) -> (result: Result<(), CustomError>)
    ensures
        old(personal).personal_counter < u64::MAX && old(global).global_counter < u64::MAX ==> {
            &&& result is Ok
            &&& final(personal).personal_counter == old(personal).personal_counter + 1
            &&& final(global).global_counter == old(global).global_counter + 1
        },
        old(personal).personal_counter == u64::MAX || old(global).global_counter == u64::MAX ==> {
            &&& result == Err::<(), CustomError>(CustomError::ArithmeticOverflow)
            &&& *final(personal) == *old(personal)
            &&& *final(global) == *old(global)
        },
{
    match (personal.personal_counter.checked_add(1), global.global_counter.checked_add(1)) {
        (Some(next_personal), Some(next_global)) => {
            personal.personal_counter = next_personal;
            global.global_counter = next_global;
            Ok(())
        },
        _ => Err(CustomError::ArithmeticOverflow),
    }
}

/// The address of a derivation, without its bump seed.
fn address_part(found: Option<(Pubkey, u8)>) -> (address: Option<Pubkey>)
    ensures
        key_view(address) == address_of(found_view(found)),
{
    match found {
        Some((address, _)) => Some(address),
        None => None,
    }
}

/// Decodes the designated authority.
pub fn authority_key() -> (key: Option<Pubkey>)
    ensures
        key_view(key) == authority(),
{
    decode_pubkey(ADMIN)
}

/// Reads the personal counter stored at `address`.
pub fn read_user_account(
    store: &AccountStore,
    address: &Pubkey,
) -> (account: Option<UserAccount>)
    ensures
        account == user_record(store@, address@),
{
    match store.get(address) {
        Some(data) => UserAccount::from_bytes(data.as_slice()),
        None => None,
    }
}

/// Reads the shared counter stored at `address`.
pub fn read_global_account(
    store: &AccountStore,
    address: &Pubkey,
) -> (account: Option<GlobalAccount>)
    ensures
        account == global_record(store@, address@),
{
    match store.get(address) {
        Some(data) => GlobalAccount::from_bytes(data.as_slice()),
        None => None,
    }
}

/// Creates the caller's personal counter at zero, given the address that
/// was derived for the caller.
pub fn initialize_with(
    store: &mut AccountStore,
    ctx: Initialize,
    user_pda: Option<Pubkey>,
) -> (result: Result<(), CustomError>)
    ensures
        result == initialize_outcome(old(store)@, ctx, key_view(user_pda)).result,
        final(store)@ == initialize_outcome(old(store)@, ctx, key_view(user_pda)).accounts,
{
    if !is_derived(&ctx.user_account, &user_pda) {
        return Err(CustomError::NotFound);
    }
    if store.contains(&ctx.user_account) {
        return Err(CustomError::AlreadyInitialized);
    }
    store.insert(ctx.user_account, UserAccount::new().to_bytes());
    Ok(())
}

/// Creates the shared counter at zero, given the address that was derived
/// for it and the designated authority.
pub fn initialize_global_with(
    store: &mut AccountStore,
    ctx: InitializeGlobal,
    global_pda: Option<Pubkey>,
    authority: Option<Pubkey>,
) -> (result: Result<(), CustomError>)
    ensures
        result == initialize_global_outcome(
            old(store)@,
            ctx,
            key_view(global_pda),
            key_view(authority),
        ).result,
        final(store)@ == initialize_global_outcome(
            old(store)@,
            ctx,
            key_view(global_pda),
            key_view(authority),
        ).accounts,
{
    if !is_derived(&ctx.global_account, &global_pda) {
        return Err(CustomError::NotFound);
    }
    if store.contains(&ctx.global_account) {
        return Err(CustomError::AlreadyInitialized);
    }
    check_authority(&ctx.user, &authority)?;
    store.insert(ctx.global_account, GlobalAccount::new().to_bytes());
    Ok(())
}

/// Removes the caller's personal counter, given the address that was
/// derived for the caller.
pub fn close_with(
    store: &mut AccountStore,
    ctx: CloseAccount,
    user_pda: Option<Pubkey>,
) -> (result: Result<(), CustomError>)
    ensures
        result == close_outcome(old(store)@, ctx, key_view(user_pda)).result,
        final(store)@ == close_outcome(old(store)@, ctx, key_view(user_pda)).accounts,
{
    if !is_derived(&ctx.user_account, &user_pda) {
        return Err(CustomError::NotFound);
    }
    if read_user_account(store, &ctx.user_account).is_none() {
        return Err(CustomError::NotFound);
    }
    let _ = store.remove(&ctx.user_account);
    Ok(())
}

/// Raises the caller's personal counter and the shared counter by one, both
/// or neither, given the two addresses that were derived.
pub fn increment_with(
    store: &mut AccountStore,
    ctx: Increment,
    user_pda: Option<Pubkey>,
    global_pda: Option<Pubkey>,
) -> (result: Result<(), CustomError>)
    ensures
        result == increment_outcome(
            old(store)@,
            ctx,
            key_view(user_pda),
            key_view(global_pda),
        ).result,
        final(store)@ == increment_outcome(
            old(store)@,
            ctx,
            key_view(user_pda),
            key_view(global_pda),
        ).accounts,
{
    if !is_derived(&ctx.user_account, &user_pda) || !is_derived(&ctx.global_account, &global_pda) {
        return Err(CustomError::NotFound);
    }
    let personal = read_user_account(store, &ctx.user_account);
    let global = read_global_account(store, &ctx.global_account);
    match (personal, global) {
        (Some(mut personal), Some(mut global)) => {
            increment_both(&mut personal, &mut global)?;
            store.insert(ctx.user_account, personal.to_bytes());
            store.insert(ctx.global_account, global.to_bytes());
            Ok(())
        },
        _ => Err(CustomError::NotFound),
    }
}

/// Creates the caller's personal counter at zero.
///
/// Fails with `NotFound` where the account named is not at the address
/// derived from the caller's key, with `AlreadyInitialized` where that
/// address is occupied; a failure changes nothing.
pub fn initialize(store: &mut AccountStore, ctx: Initialize) -> (result: Result<(), CustomError>)
    ensures
        result == initialize_outcome(old(store)@, ctx, user_account_address(ctx.user@)).result,
        final(store)@ == initialize_outcome(
            old(store)@,
            ctx,
            user_account_address(ctx.user@),
        ).accounts,
        result is Err ==> final(store)@ == old(store)@,
{
    let user_pda = address_part(find_user_account_address(&ctx.user));
    initialize_with(store, ctx, user_pda)
}

/// Creates the shared counter at zero. Only the designated authority may.
///
/// Fails with `NotFound` where the account named is not at the address
/// derived for the shared counter, with `AlreadyInitialized` where that
/// address is occupied, and otherwise with `UnauthorizedCaller` where the
/// caller is not the authority; a failure changes nothing.
pub fn initialize_global(
    store: &mut AccountStore,
    ctx: InitializeGlobal,
) -> (result: Result<(), CustomError>)
    ensures
        result == initialize_global_outcome(
            old(store)@,
            ctx,
            global_account_address(),
            authority(),
        ).result,
        final(store)@ == initialize_global_outcome(
            old(store)@,
            ctx,
            global_account_address(),
            authority(),
        ).accounts,
        result is Err ==> final(store)@ == old(store)@,
{
    let global_pda = address_part(find_global_account_address());
    let allowed_signer = authority_key();
    initialize_global_with(store, ctx, global_pda, allowed_signer)
}

/// Removes the caller's personal counter.
///
/// Fails with `NotFound` where the account named is not at the address
/// derived from the caller's key or holds no personal counter; a failure
/// changes nothing.
pub fn close(store: &mut AccountStore, ctx: CloseAccount) -> (result: Result<(), CustomError>)
    ensures
        result == close_outcome(old(store)@, ctx, user_account_address(ctx.user@)).result,
        final(store)@ == close_outcome(old(store)@, ctx, user_account_address(ctx.user@)).accounts,
        result is Err ==> final(store)@ == old(store)@,
{
    let user_pda = address_part(find_user_account_address(&ctx.user));
    close_with(store, ctx, user_pda)
}

/// Raises the caller's personal counter and the shared counter by one.
///
/// Fails with `NotFound` where either account named is not at its derived
/// address or holds no record of its kind, with `ArithmeticOverflow` where
/// either counter is at its largest value; a failure changes nothing.
pub fn increment(store: &mut AccountStore, ctx: Increment) -> (result: Result<(), CustomError>)
    ensures
        result == increment_outcome(
            old(store)@,
            ctx,
            user_account_address(ctx.user@),
            global_account_address(),
        ).result,
        final(store)@ == increment_outcome(
            old(store)@,
            ctx,
            user_account_address(ctx.user@),
            global_account_address(),
        ).accounts,
        result is Err ==> final(store)@ == old(store)@,
{
    let user_pda = address_part(find_user_account_address(&ctx.user));
    let global_pda = address_part(find_global_account_address());
    increment_with(store, ctx, user_pda, global_pda)
}

} // verus!
