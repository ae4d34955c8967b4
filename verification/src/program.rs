//! The program as a whole: an instruction is one of four, and a history is
//! a sequence of instructions applied one after another.

use vstd::prelude::*;
use crate::address::{
    find_global_account_address, find_user_account_address, global_account_address,
    user_account_address,
};
use crate::error::CustomError;
use crate::instructions::{
    authority, close, close_outcome, global_record, increment, increment_outcome, initialize,
    initialize_global, initialize_global_outcome, initialize_outcome, read_global_account,
    read_user_account, user_record, CloseAccount, Increment, Initialize, InitializeGlobal,
    Outcome,
};
use crate::pubkey::Pubkey;
use crate::store::AccountStore;

verus! {

/// One instruction with the accounts it names.
#[derive(Clone, Copy, Debug)]
pub enum Instruction {
    Initialize(Initialize),
    InitializeGlobal(InitializeGlobal),
    Close(CloseAccount),
    Increment(Increment),
}

impl Instruction {
    /// The key of the caller.
    pub open spec fn caller(self) -> Seq<u8> {
        match self {
            Instruction::Initialize(ctx) => ctx.user@,
            Instruction::InitializeGlobal(ctx) => ctx.user@,
            Instruction::Close(ctx) => ctx.user@,
            Instruction::Increment(ctx) => ctx.user@,
        }
    }
}

/// What one instruction answers and the store it leaves.
pub open spec fn step(pre: Map<Seq<u8>, Seq<u8>>, instruction: Instruction) -> Outcome {
    match instruction {
        Instruction::Initialize(ctx) => initialize_outcome(
            pre,
            ctx,
            user_account_address(ctx.user@),
        ),
        Instruction::InitializeGlobal(ctx) => initialize_global_outcome(
            pre,
            ctx,
            global_account_address(),
            authority(),
        ),
        Instruction::Close(ctx) => close_outcome(pre, ctx, user_account_address(ctx.user@)),
        Instruction::Increment(ctx) => increment_outcome(
            pre,
            ctx,
            user_account_address(ctx.user@),
            global_account_address(),
        ),
    }
}

/// The store after a history of instructions, refused ones included.
pub open spec fn run(
    pre: Map<Seq<u8>, Seq<u8>>,
    history: Seq<Instruction>,
) -> Map<Seq<u8>, Seq<u8>>
    decreases history.len(),
{
    if history.len() == 0 {
        pre
    } else {
        step(run(pre, history.drop_last()), history.last()).accounts
    }
}

/// How many `increment` instructions of a history were accepted.
pub open spec fn completed_increments(
    pre: Map<Seq<u8>, Seq<u8>>,
    history: Seq<Instruction>,
) -> nat
    decreases history.len(),
{
    if history.len() == 0 {
        0
    } else {
        let earlier = history.drop_last();
        let last = history.last();
        if last is Increment && step(run(pre, earlier), last).result is Ok {
            completed_increments(pre, earlier) + 1
        } else {
            completed_increments(pre, earlier)
        }
    }
}

/// The value of the personal counter of `user`, if the store holds it.
pub open spec fn personal_count(accounts: Map<Seq<u8>, Seq<u8>>, user: Seq<u8>) -> Option<u64> {
    match user_account_address(user) {
        Some(address) => match user_record(accounts, address) {
            Some(account) => Some(account.personal_counter),
            None => None,
        },
        None => None,
    }
}

/// The value of the shared counter, if the store holds it.
pub open spec fn global_count(accounts: Map<Seq<u8>, Seq<u8>>) -> Option<u64> {
    match global_account_address() {
        Some(address) => match global_record(accounts, address) {
            Some(account) => Some(account.global_counter),
            None => None,
        },
        None => None,
    }
}

/// Carries out one instruction.
pub fn process(
    store: &mut AccountStore,
    instruction: Instruction,
) -> (result: Result<(), CustomError>)
    ensures
        result == step(old(store)@, instruction).result,
        final(store)@ == step(old(store)@, instruction).accounts,
{
    match instruction {
        Instruction::Initialize(ctx) => initialize(store, ctx),
        Instruction::InitializeGlobal(ctx) => initialize_global(store, ctx),
        Instruction::Close(ctx) => close(store, ctx),
        Instruction::Increment(ctx) => increment(store, ctx),
    }
}

/// Reads the personal counter of `user` at its derived address.
pub fn personal_counter(store: &AccountStore, user: &Pubkey) -> (count: Option<u64>)
    ensures
        count == personal_count(store@, user@),
{
    match find_user_account_address(user) {
        Some((address, _)) => match read_user_account(store, &address) {
            Some(account) => Some(account.personal_counter),
            None => None,
        },
        None => None,
    }
}

/// Reads the shared counter at its derived address.
pub fn global_counter(store: &AccountStore) -> (count: Option<u64>)
    ensures
        count == global_count(store@),
{
    match find_global_account_address() {
        Some((address, _)) => match read_global_account(store, &address) {
            Some(account) => Some(account.global_counter),
            None => None,
        },
        None => None,
    }
}

} // verus!
