//! What holds of the instructions, whatever the store and the accounts.

use vstd::prelude::*;
use crate::address::{global_account_address, user_account_address};
use crate::error::CustomError;
use crate::instructions::{
    close_outcome, global_record, increment_outcome, initialize_global_outcome, initialize_outcome,
    user_record, CloseAccount, Increment, Initialize, InitializeGlobal, Outcome,
};
use crate::pubkey::Pubkey;
use crate::program::{
    completed_increments, global_count, personal_count, run, step, Instruction,
};
use crate::state::{
    global_account_tag, lemma_decode_encode, lemma_kinds_differ, user_account_tag, GlobalAccount,
    UserAccount,
};

verus! {

/// A record of either kind reads back as it was written, and does not read
/// as a record of the other kind.
proof fn lemma_records(counter: u64)
    ensures
        UserAccount::decoding(UserAccount { personal_counter: counter }.encoding()) == Some(
            UserAccount { personal_counter: counter },
        ),
        GlobalAccount::decoding(GlobalAccount { global_counter: counter }.encoding()) == Some(
            GlobalAccount { global_counter: counter },
        ),
        UserAccount::decoding(GlobalAccount { global_counter: counter }.encoding()) is None,
        GlobalAccount::decoding(UserAccount { personal_counter: counter }.encoding()) is None,
{
    lemma_decode_encode(user_account_tag(), counter);
    lemma_decode_encode(global_account_tag(), counter);
    lemma_kinds_differ(UserAccount { personal_counter: counter }.encoding());
    lemma_kinds_differ(GlobalAccount { global_counter: counter }.encoding());
}

/// Where the caller's derived address is free, `initialize` succeeds and
/// the personal counter reads zero; a second `initialize` fails with
/// `AlreadyInitialized` and changes nothing.
pub proof fn law_initialize_once(
    pre: Map<Seq<u8>, Seq<u8>>,
    ctx: Initialize,
    user_pda: Option<Seq<u8>>,
)
    requires
        user_pda == Some(ctx.user_account@),
        !pre.contains_key(ctx.user_account@),
    ensures
        ({
            let first = initialize_outcome(pre, ctx, user_pda);
            let second = initialize_outcome(first.accounts, ctx, user_pda);
            &&& first.result is Ok
            &&& user_record(first.accounts, ctx.user_account@) == Some(
                UserAccount { personal_counter: 0 },
            )
            &&& second.result == Err::<(), CustomError>(CustomError::AlreadyInitialized)
            &&& second.accounts == first.accounts
        }),
{
    lemma_records(0);
}

/// `initialize_global` succeeds only for the designated authority. For any
/// other caller it fails and changes nothing; where the shared counter is
/// absent, and the account named is the one derived for it, the failure is
/// `UnauthorizedCaller` and the counter stays absent.
pub proof fn law_global_needs_authority(
    pre: Map<Seq<u8>, Seq<u8>>,
    ctx: InitializeGlobal,
    global_pda: Option<Seq<u8>>,
    authority: Option<Seq<u8>>,
)
    ensures
        ({
            let outcome = initialize_global_outcome(pre, ctx, global_pda, authority);
            &&& outcome.result is Ok ==> authority == Some(ctx.user@)
            &&& authority != Some(ctx.user@) ==> outcome.result is Err && outcome.accounts == pre
            &&& authority != Some(ctx.user@) && global_pda == Some(ctx.global_account@)
                && !pre.contains_key(ctx.global_account@) ==> {
                &&& outcome.result == Err::<(), CustomError>(CustomError::UnauthorizedCaller)
                &&& !outcome.accounts.contains_key(ctx.global_account@)
            }
            &&& authority == Some(ctx.user@) && global_pda == Some(ctx.global_account@)
                && !pre.contains_key(ctx.global_account@) ==> {
                &&& outcome.result is Ok
                &&& global_record(outcome.accounts, ctx.global_account@) == Some(
                    GlobalAccount { global_counter: 0 },
                )
            }
        }),
{
    lemma_records(0);
}

/// Where both counters exist at their derived addresses and neither is at
/// its largest value, `increment` raises each by exactly one.
pub proof fn law_increment_raises_both(
    pre: Map<Seq<u8>, Seq<u8>>,
    ctx: Increment,
    user_pda: Option<Seq<u8>>,
    global_pda: Option<Seq<u8>>,
    personal: u64,
    global: u64,
)
    requires
        user_pda == Some(ctx.user_account@),
        global_pda == Some(ctx.global_account@),
        user_record(pre, ctx.user_account@) == Some(UserAccount { personal_counter: personal }),
        global_record(pre, ctx.global_account@) == Some(GlobalAccount { global_counter: global }),
        personal < u64::MAX,
        global < u64::MAX,
    ensures
        ({
            let outcome = increment_outcome(pre, ctx, user_pda, global_pda);
            &&& outcome.result is Ok
            &&& user_record(outcome.accounts, ctx.user_account@) == Some(
                UserAccount { personal_counter: (personal + 1) as u64 },
            )
            &&& global_record(outcome.accounts, ctx.global_account@) == Some(
                GlobalAccount { global_counter: (global + 1) as u64 },
            )
        }),
{
    lemma_records((personal + 1) as u64);
    lemma_records((global + 1) as u64);
    lemma_kinds_differ(pre[ctx.user_account@]);
}

/// `increment` is all or nothing: either it fails and the store is as it
/// was, or it succeeds and both counters are one higher. No outcome has
/// only one of the two raised.
pub proof fn law_increment_all_or_nothing(
    pre: Map<Seq<u8>, Seq<u8>>,
    ctx: Increment,
    user_pda: Option<Seq<u8>>,
    global_pda: Option<Seq<u8>>,
)
    ensures
        ({
            let outcome = increment_outcome(pre, ctx, user_pda, global_pda);
            if outcome.result is Ok {
                &&& user_record(pre, ctx.user_account@) matches Some(before)
                &&& user_record(outcome.accounts, ctx.user_account@) matches Some(after)
                &&& after.personal_counter == before.personal_counter + 1
                &&& global_record(pre, ctx.global_account@) matches Some(shared_before)
                &&& global_record(outcome.accounts, ctx.global_account@) matches Some(
                    shared_after,
                )
                &&& shared_after.global_counter == shared_before.global_counter + 1
            } else {
                outcome.accounts == pre
            }
        }),
{
    let outcome = increment_outcome(pre, ctx, user_pda, global_pda);
    if outcome.result is Ok {
        let personal = user_record(pre, ctx.user_account@)->0.personal_counter;
        let global = global_record(pre, ctx.global_account@)->0.global_counter;
        law_increment_raises_both(pre, ctx, user_pda, global_pda, personal, global);
    }
}

/// `close` removes the caller's personal counter. After it, `increment` on
/// that account fails with `NotFound`, and `initialize` succeeds again and
/// the counter reads zero.
pub proof fn law_close_then_reopen(
    pre: Map<Seq<u8>, Seq<u8>>,
    ctx: CloseAccount,
    user_pda: Option<Seq<u8>>,
    global_account: Pubkey,
    global_pda: Option<Seq<u8>>,
)
    requires
        user_pda == Some(ctx.user_account@),
        user_record(pre, ctx.user_account@) is Some,
    ensures
        ({
            let closed = close_outcome(pre, ctx, user_pda);
            let again = Increment {
                user_account: ctx.user_account,
                global_account,
                user: ctx.user,
            };
            let fresh = Initialize { user_account: ctx.user_account, user: ctx.user };
            let reopened = initialize_outcome(closed.accounts, fresh, user_pda);
            &&& closed.result is Ok
            &&& !closed.accounts.contains_key(ctx.user_account@)
            &&& user_record(closed.accounts, ctx.user_account@) is None
            &&& increment_outcome(closed.accounts, again, user_pda, global_pda) == (Outcome {
                result: Err(CustomError::NotFound),
                accounts: closed.accounts,
            })
            &&& reopened.result is Ok
            &&& user_record(reopened.accounts, ctx.user_account@) == Some(
                UserAccount { personal_counter: 0 },
            )
        }),
{
    lemma_records(0);
}

/// A closed record leaves no trace: creating a personal counter at a free
/// address and closing it again gives back the store as it was before.
pub proof fn law_close_leaves_no_trace(
    pre: Map<Seq<u8>, Seq<u8>>,
    ctx: Initialize,
    user_pda: Option<Seq<u8>>,
)
    requires
        user_pda == Some(ctx.user_account@),
        !pre.contains_key(ctx.user_account@),
    ensures
        ({
            let opened = initialize_outcome(pre, ctx, user_pda);
            let closing = CloseAccount { user_account: ctx.user_account, user: ctx.user };
            let closed = close_outcome(opened.accounts, closing, user_pda);
            &&& closed.result is Ok
            &&& closed.accounts == pre
        }),
{
    lemma_records(0);
    let opened = initialize_outcome(pre, ctx, user_pda);
    assert(opened.accounts.remove(ctx.user_account@) =~= pre);
}

/// A refused instruction changes nothing.
pub proof fn law_refusal_changes_nothing(pre: Map<Seq<u8>, Seq<u8>>, instruction: Instruction)
    ensures
        step(pre, instruction).result is Err ==> step(pre, instruction).accounts == pre,
{
}

/// An accepted instruction works on the caller's own personal counter: the
/// account it names is the one derived from the caller's key, and the
/// shared counter it names is the one derived for the program.
pub proof fn law_caller_reaches_own_record(pre: Map<Seq<u8>, Seq<u8>>, instruction: Instruction)
    ensures
        step(pre, instruction).result is Ok ==> match instruction {
            Instruction::Initialize(ctx) => user_account_address(ctx.user@) == Some(
                ctx.user_account@,
            ),
            Instruction::InitializeGlobal(ctx) => global_account_address() == Some(
                ctx.global_account@,
            ),
            Instruction::Close(ctx) => user_account_address(ctx.user@) == Some(ctx.user_account@),
            Instruction::Increment(ctx) => user_account_address(ctx.user@) == Some(
                ctx.user_account@,
            ) && global_account_address() == Some(ctx.global_account@),
        },
{
}

/// Callers are independent: an instruction of one caller leaves the
/// personal counter of every caller whose record has another address as it
/// was.
pub proof fn law_callers_independent(
    pre: Map<Seq<u8>, Seq<u8>>,
    instruction: Instruction,
    other: Seq<u8>,
)
    ensures
        user_account_address(other) != user_account_address(instruction.caller())
            ==> personal_count(step(pre, instruction).accounts, other) == personal_count(
            pre,
            other,
        ),
{
    let theirs = user_account_address(other);
    if theirs is Some && theirs != user_account_address(instruction.caller()) && step(
        pre,
        instruction,
    ).result is Ok {
        lemma_records(0);
        match instruction {
            Instruction::Initialize(ctx) => {},
            Instruction::InitializeGlobal(ctx) => {},
            Instruction::Close(ctx) => {},
            Instruction::Increment(ctx) => {
                let global = global_record(pre, ctx.global_account@)->0.global_counter;
                lemma_records((global + 1) as u64);
                lemma_kinds_differ(pre[ctx.global_account@]);
            },
        }
    }
}

/// No instruction lowers a counter: the shared counter, once there, stays
/// and does not decrease, and a personal counter either goes away or does
/// not decrease.
pub proof fn law_counters_never_decrease(
    pre: Map<Seq<u8>, Seq<u8>>,
    instruction: Instruction,
    user: Seq<u8>,
)
    ensures
        ({
            let post = step(pre, instruction).accounts;
            &&& global_count(pre) matches Some(before) ==> global_count(post) matches Some(after)
                && after >= before
            &&& personal_count(pre, user) matches Some(before) ==> (personal_count(post, user)
                matches Some(after) ==> after >= before)
        }),
{
    let post = step(pre, instruction).accounts;
    if step(pre, instruction).result is Ok {
        match instruction {
            Instruction::Initialize(ctx) => {},
            Instruction::InitializeGlobal(ctx) => {},
            Instruction::Close(ctx) => {
                lemma_kinds_differ(pre[ctx.user_account@]);
            },
            Instruction::Increment(ctx) => {
                let personal = user_record(pre, ctx.user_account@)->0.personal_counter;
                let global = global_record(pre, ctx.global_account@)->0.global_counter;
                law_increment_raises_both(
                    pre,
                    ctx,
                    user_account_address(ctx.user@),
                    global_account_address(),
                    personal,
                    global,
                );
                lemma_kinds_differ(pre[ctx.user_account@]);
                if personal_count(pre, user) is Some {
                    let address = user_account_address(user)->0;
                    if address == ctx.global_account@ {
                        lemma_kinds_differ(pre[address]);
                    }
                }
            },
        }
    }
}

/// One instruction moves the shared counter like this: an accepted
/// `increment` raises it by one, an accepted `initialize_global` brings it
/// from absent to zero, and everything else leaves it as it was.
proof fn lemma_step_global(pre: Map<Seq<u8>, Seq<u8>>, instruction: Instruction)
    ensures
        ({
            let outcome = step(pre, instruction);
            if outcome.result is Ok && instruction is Increment {
                &&& global_count(pre) matches Some(before)
                &&& before < u64::MAX
                &&& global_count(outcome.accounts) == Some((before + 1) as u64)
            } else if outcome.result is Ok && instruction is InitializeGlobal {
                &&& global_count(pre) is None
                &&& global_count(outcome.accounts) == Some(0u64)
            } else {
                global_count(outcome.accounts) == global_count(pre)
            }
        }),
{
    let outcome = step(pre, instruction);
    lemma_records(0);
    if outcome.result is Ok {
        match instruction {
            Instruction::Initialize(ctx) => {},
            Instruction::InitializeGlobal(ctx) => {},
            Instruction::Close(ctx) => {
                lemma_kinds_differ(pre[ctx.user_account@]);
            },
            Instruction::Increment(ctx) => {
                let personal = user_record(pre, ctx.user_account@)->0.personal_counter;
                let global = global_record(pre, ctx.global_account@)->0.global_counter;
                law_increment_raises_both(
                    pre,
                    ctx,
                    user_account_address(ctx.user@),
                    global_account_address(),
                    personal,
                    global,
                );
            },
        }
    }
}

/// The shared counter counts the accepted increments of all callers. Over
/// any history, a counter that was there at the start has risen by the
/// number of accepted increments; one that was not is either still absent,
/// and no increment was accepted, or equals that number.
pub proof fn law_global_counts_increments(
    pre: Map<Seq<u8>, Seq<u8>>,
    history: Seq<Instruction>,
)
    ensures
        match global_count(pre) {
            Some(start) => global_count(run(pre, history)) matches Some(now) && now == start
                + completed_increments(pre, history),
            None => match global_count(run(pre, history)) {
                Some(now) => now == completed_increments(pre, history),
                None => completed_increments(pre, history) == 0,
            },
        },
    decreases history.len(),
{
    if history.len() > 0 {
        let earlier = history.drop_last();
        law_global_counts_increments(pre, earlier);
        lemma_step_global(run(pre, earlier), history.last());
    }
}

/// Starting from the empty store, the shared counter, once it exists,
/// equals the number of accepted increments across all callers.
pub proof fn law_global_is_sum_of_increments(history: Seq<Instruction>)
    ensures
        global_count(run(Map::empty(), history)) matches Some(now) ==> now
            == completed_increments(Map::empty(), history),
{
    law_global_counts_increments(Map::empty(), history);
}

} // verus!
