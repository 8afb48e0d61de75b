//! What holds of the pool as a whole: of every state, and of calls that follow one
//! another.

use vstd::prelude::*;

use crate::bytes::{high_half, lemma_halves_injective, low_half};
use crate::model::{moved, moved_by, Call, EnvState, PoolState};
use crate::types::{Address, DataKey, Error, Event, Symbol};

verus! {

/// Storage to which nothing was ever written is valid.
pub proof fn law_unwritten_storage_is_valid()
    ensures
        PoolState::unwritten().valid(),
{
}

/// Every call leaves a valid pool valid.
pub proof fn law_calls_keep_the_pool_valid(state: PoolState, call: Call, sequence: u32)
    requires
        state.valid(),
    ensures
        state.next(call, sequence).valid(),
{
    let next = state.next(call, sequence);
    assert forall|sentinel: Address| #[trigger] next.balance(sentinel) >= 0 by {
        assert(state.balance(sentinel) >= 0);
        if let Some(subject) = call.subject() {
            assert(state.balance(subject) >= 0);
        }
    }
    if next.admin is Some {
        assert forall|key: DataKey| #[trigger] next.has(key) by {
            if state.admin is Some {
                assert(state.has(key));
            }
        }
    }
}

/// Whatever calls a pool has answered since its storage was empty, it is valid.
pub proof fn law_the_pool_is_always_valid(calls: Seq<(Call, u32)>)
    ensures
        PoolState::unwritten().run(calls).valid(),
{
    lemma_run_is_valid(PoolState::unwritten(), calls);
}

/// A refused call changes nothing and announces nothing.
pub proof fn law_a_refused_call_changes_nothing(env: EnvState, call: Call)
    requires
        env.answer(call) is Err,
    ensures
        env.after(call) == env,
{
}

/// The pool never answers that an amount is invalid: such an amount is an invalid
/// stake.
pub proof fn law_no_call_is_refused_for_an_invalid_amount(env: EnvState, call: Call)
    ensures
        env.answer(call) != Err::<(), Error>(Error::InvalidAmount),
{
}

/// The codes tell the errors apart.
pub proof fn law_codes_tell_errors_apart(first: Error, second: Error)
    requires
        first.spec_code() == second.spec_code(),
    ensures
        first == second,
{
}

/// The integers that stand for an address tell it from every other.
pub proof fn law_keys_tell_addresses_apart(first: Address, second: Address)
    requires
        first.spec_key() == second.spec_key(),
    ensures
        first == second,
{
}

/// Different public keys make different accounts, different hashes different
/// contracts, different texts different symbols, and no account is a contract.
pub proof fn law_bytes_tell_identities_apart(first: Seq<u8>, second: Seq<u8>)
    requires
        first.len() == 32,
        second.len() == 32,
    ensures
        Address::of_account(first) == Address::of_account(second) ==> first == second,
        Address::of_contract(first) == Address::of_contract(second) ==> first == second,
        Symbol::of_text(first) == Symbol::of_text(second) ==> first == second,
        Address::of_account(first) != Address::of_contract(second),
{
    if high_half(first) == high_half(second) && low_half(first) == low_half(second) {
        lemma_halves_injective(first, second);
    }
}

/// A pool that was just set up has what it was given, and neither stakes nor used
/// proofs.
pub proof fn law_a_new_pool_has_what_it_was_given(
    state: PoolState,
    admin: Address,
    min_stake: i128,
    lock_period: u64,
    threshold: u32,
    sequence: u32,
)
    requires
        state.refusal(Call::Initialize { admin, min_stake, lock_period, threshold }, sequence)
            is None,
    ensures
        ({
            let next = state.next(
                Call::Initialize { admin, min_stake, lock_period, threshold },
                sequence,
            );
            &&& next.admin == Some(admin)
            &&& next.required_stake() == min_stake
            &&& next.lock() == lock_period
            &&& forall|required: u32| #[trigger] next.threshold_or(required) == threshold
            &&& forall|sentinel: Address| #[trigger] next.balance(sentinel) == 0
            &&& forall|sentinel: Address| #[trigger] next.last_staked(sentinel) == 0
            &&& forall|sentinel: Address, reason: Symbol|
                !#[trigger] next.proof_used(sentinel, reason)
        }),
{
}

/// A pool that has been set up cannot be set up again.
pub proof fn law_a_pool_is_set_up_once(
    state: PoolState,
    admin: Address,
    min_stake: i128,
    lock_period: u64,
    threshold: u32,
    sequence: u32,
)
    requires
        state.admin is Some,
    ensures
        ({
            let refusal = state.refusal(
                Call::Initialize { admin, min_stake, lock_period, threshold },
                sequence,
            );
            &&& refusal is Some
            &&& min_stake > 0 && threshold > 0 ==> refusal == Some(Error::Unauthorized)
        }),
{
}

/// Once a pool has been set up, its administrator and its lock period stay.
pub proof fn law_the_administrator_stays(state: PoolState, calls: Seq<(Call, u32)>)
    requires
        state.admin is Some,
    ensures
        state.run(calls).admin == state.admin,
        state.run(calls).lock_period == state.lock_period,
    decreases calls.len(),
{
    if calls.len() > 0 {
        law_the_administrator_stays(state, calls.drop_last());
    }
}

/// An accepted stake adds its amount to the sentinel's balance, which then is at least
/// the minimum, and starts the lock period at the current ledger.
pub proof fn law_a_stake_is_read_back(
    state: PoolState,
    sentinel: Address,
    amount: i128,
    sequence: u32,
)
    requires
        state.refusal(Call::Stake { sentinel, amount }, sequence) is None,
    ensures
        ({
            let next = state.next(Call::Stake { sentinel, amount }, sequence);
            &&& next.balance(sentinel) == state.balance(sentinel) + amount
            &&& next.balance(sentinel) >= next.required_stake()
            &&& next.last_staked(sentinel) == sequence
        }),
{
}

/// An accepted withdrawal takes its amount off the sentinel's balance, which stays at
/// least the minimum, and does not touch the lock period.
pub proof fn law_a_withdrawal_is_read_back(
    state: PoolState,
    sentinel: Address,
    amount: i128,
    sequence: u32,
)
    requires
        state.refusal(Call::Withdraw { sentinel, amount }, sequence) is None,
    ensures
        ({
            let next = state.next(Call::Withdraw { sentinel, amount }, sequence);
            &&& next.balance(sentinel) == state.balance(sentinel) - amount
            &&& next.balance(sentinel) >= next.required_stake()
            &&& next.last_staked(sentinel) == state.last_staked(sentinel)
        }),
{
}

/// An accepted slashing takes its amount off the sentinel's balance, which stays at
/// least the minimum, and uses the proof up.
pub proof fn law_a_slashing_is_read_back(
    state: PoolState,
    admin: Address,
    sentinel: Address,
    amount: i128,
    reason: Symbol,
    sequence: u32,
)
    requires
        state.refusal(Call::Slash { admin, sentinel, amount, reason }, sequence) is None,
    ensures
        ({
            let next = state.next(Call::Slash { admin, sentinel, amount, reason }, sequence);
            &&& next.balance(sentinel) == state.balance(sentinel) - amount
            &&& next.balance(sentinel) >= next.required_stake()
            &&& next.last_staked(sentinel) == state.last_staked(sentinel)
            &&& next.proof_used(sentinel, reason)
        }),
{
}

/// A call on one sentinel, or on none, leaves every other sentinel's stake, lock and
/// used proofs as they are, unless it is an accepted setup.
pub proof fn law_other_sentinels_are_left_alone(
    state: PoolState,
    call: Call,
    sequence: u32,
    other: Address,
    reason: Symbol,
)
    requires
        call is Initialize ==> state.refusal(call, sequence) is Some,
        call.subject() != Some(other),
    ensures
        state.next(call, sequence).balance(other) == state.balance(other),
        state.next(call, sequence).last_staked(other) == state.last_staked(other),
        state.next(call, sequence).proof_used(other, reason) == state.proof_used(other, reason),
{
}

/// But for an accepted setup, a sentinel's balance grows only by its own stakes, and
/// shrinks only by its own withdrawals and by slashings by whoever governs the pool.
pub proof fn law_who_may_move_a_balance(
    state: PoolState,
    call: Call,
    sequence: u32,
    sentinel: Address,
)
    requires
        call is Initialize ==> state.refusal(call, sequence) is Some,
    ensures
        state.next(call, sequence).balance(sentinel) > state.balance(sentinel) ==> {
            &&& call is Stake
            &&& call.actor() == sentinel
        },
        state.next(call, sequence).balance(sentinel) < state.balance(sentinel) ==> {
            ||| call is Withdraw && call.actor() == sentinel
            ||| call is Slash && state.governed_by(call.actor()) && call.subject() == Some(
                sentinel,
            )
        },
{
}

/// Only calls by whoever governs the pool change the administrator, the lock period,
/// the threshold, the minimum stake or the used proofs.
pub proof fn law_only_the_administrator_governs(state: PoolState, call: Call, sequence: u32)
    ensures
        ({
            let next = state.next(call, sequence);
            ||| state.governed_by(call.actor())
            ||| {
                &&& next.admin == state.admin
                &&& next.lock_period == state.lock_period
                &&& next.threshold == state.threshold
                &&& next.min_stake == state.min_stake
                &&& next.slash_proofs == state.slash_proofs
            }
        }),
{
}

/// A governance call by anybody who does not govern the pool is refused as
/// unauthorized, if its arguments are in order, and changes nothing.
pub proof fn law_others_cannot_govern(state: PoolState, call: Call, sequence: u32)
    requires
        call is SetThreshold || call is SetMinStake || call is Slash,
        call.argument_error() is None,
        !state.governed_by(call.actor()),
    ensures
        state.refusal(call, sequence) == Some(Error::Unauthorized),
        state.next(call, sequence) == state,
{
}

/// A positive threshold by whoever governs the pool is accepted and read back, whatever quorum a caller
/// would require.
pub proof fn law_a_threshold_is_read_back(
    state: PoolState,
    admin: Address,
    threshold: u32,
    sequence: u32,
    required: u32,
)
    requires
        state.governed_by(admin),
        threshold > 0,
    ensures
        state.refusal(Call::SetThreshold { admin, threshold }, sequence) is None,
        state.next(Call::SetThreshold { admin, threshold }, sequence).threshold_or(required)
            == threshold,
{
}

/// A positive minimum stake by whoever governs the pool is accepted and read back.
pub proof fn law_a_minimum_is_read_back(
    state: PoolState,
    admin: Address,
    min_stake: i128,
    sequence: u32,
)
    requires
        state.governed_by(admin),
        min_stake > 0,
    ensures
        state.refusal(Call::SetMinStake { admin, min_stake }, sequence) is None,
        state.next(Call::SetMinStake { admin, min_stake }, sequence).required_stake()
            == min_stake,
{
}

/// While no call sets the pool up, the threshold and the minimum stake stay what they
/// are until a call sets them.
pub proof fn law_settings_persist(state: PoolState, calls: Seq<(Call, u32)>)
    requires
        state.no_setup_in(calls),
    ensures
        (forall|i: int| 0 <= i < calls.len() ==> !((#[trigger] calls[i]).0 is SetThreshold))
            ==> state.run(calls).threshold == state.threshold,
        (forall|i: int| 0 <= i < calls.len() ==> !((#[trigger] calls[i]).0 is SetMinStake))
            ==> state.run(calls).min_stake == state.min_stake,
    decreases calls.len(),
{
    if calls.len() > 0 {
        let earlier = calls.drop_last();
        lemma_no_setup_in(state, calls);
        law_settings_persist(state, earlier);
        assert(calls.last() == calls[calls.len() - 1]);
        assert forall|i: int| 0 <= i < earlier.len() implies #[trigger] earlier[i]
            == calls[i] by {}
    }
}

/// While no call sets the pool up, a sentinel's balance, its last stake and its used
/// proofs stay what they are until a call is about that sentinel.
pub proof fn law_a_balance_persists(
    state: PoolState,
    calls: Seq<(Call, u32)>,
    sentinel: Address,
    reason: Symbol,
)
    requires
        state.no_setup_in(calls),
        forall|i: int|
            0 <= i < calls.len() ==> (#[trigger] calls[i]).0.subject() != Some(sentinel),
    ensures
        state.run(calls).balance(sentinel) == state.balance(sentinel),
        state.run(calls).last_staked(sentinel) == state.last_staked(sentinel),
        state.run(calls).proof_used(sentinel, reason) == state.proof_used(sentinel, reason),
    decreases calls.len(),
{
    if calls.len() > 0 {
        let earlier = calls.drop_last();
        assert forall|i: int| 0 <= i < earlier.len() implies (#[trigger] earlier[i]).0.subject()
            != Some(sentinel) by {
            assert(earlier[i] == calls[i]);
        }
        assert(calls[calls.len() - 1] == calls.last());
        lemma_no_setup_in(state, calls);
        law_a_balance_persists(state, earlier, sentinel, reason);
        law_other_sentinels_are_left_alone(
            state.run(earlier),
            calls.last().0,
            calls.last().1,
            sentinel,
            reason,
        );
    }
}

/// In a valid pool that has been set up, the threshold is positive, and a quorum is
/// the threshold whatever a caller would require.
pub proof fn law_the_quorum_is_the_threshold(state: PoolState, required: u32)
    requires
        state.valid(),
        state.admin is Some,
    ensures
        state.threshold_or(required) == state.threshold_or(0),
        state.threshold_or(required) > 0,
{
    assert(state.has(DataKey::Threshold));
}

/// While no call sets the pool up, a used proof stays used.
pub proof fn law_a_used_proof_stays_used(
    state: PoolState,
    calls: Seq<(Call, u32)>,
    sentinel: Address,
    reason: Symbol,
)
    requires
        state.no_setup_in(calls),
        state.proof_used(sentinel, reason),
    ensures
        state.run(calls).proof_used(sentinel, reason),
    decreases calls.len(),
{
    if calls.len() > 0 {
        lemma_no_setup_in(state, calls);
        law_a_used_proof_stays_used(state, calls.drop_last(), sentinel, reason);
    }
}

/// A sentinel is slashed at most once for a reason: after an accepted slashing, and
/// whatever calls follow it, each further one is refused. By whoever governs the pool
/// and with a positive amount, it is refused because the proof was used.
pub proof fn law_a_sentinel_is_slashed_once_for_a_reason(
    state: PoolState,
    first: Call,
    first_sequence: u32,
    calls: Seq<(Call, u32)>,
    again: Call,
    sequence: u32,
)
    requires
        first is Slash,
        again is Slash,
        first->Slash_sentinel == again->Slash_sentinel,
        first->Slash_reason == again->Slash_reason,
        state.refusal(first, first_sequence) is None,
        state.next(first, first_sequence).no_setup_in(calls),
    ensures
        ({
            let later = state.next(first, first_sequence).run(calls);
            &&& later.refusal(again, sequence) is Some
            &&& again.argument_error() is None && later.governed_by(again.actor())
                ==> later.refusal(again, sequence) == Some(Error::FraudProofAlreadyUsed)
        }),
{
    law_a_used_proof_stays_used(
        state.next(first, first_sequence),
        calls,
        first->Slash_sentinel,
        first->Slash_reason,
    );
}

/// A sentinel cannot withdraw during the lock period that its stake began, whatever
/// calls come in between: with a positive amount that its balance covers, it is
/// refused because the period is active.
pub proof fn law_no_withdrawal_during_the_lock_period(
    state: PoolState,
    sentinel: Address,
    amount: i128,
    staked_at: u32,
    calls: Seq<(Call, u32)>,
    withdrawn: i128,
    sequence: u32,
)
    requires
        state.refusal(Call::Stake { sentinel, amount }, staked_at) is None,
        state.no_setup_in(calls),
        forall|i: int| 0 <= i < calls.len() ==> (#[trigger] calls[i]).1 >= staked_at,
        state.lock() > 0,
        sequence < staked_at + state.lock(),
    ensures
        ({
            let later = state.next(Call::Stake { sentinel, amount }, staked_at).run(calls);
            let withdrawal = Call::Withdraw { sentinel, amount: withdrawn };
            &&& later.refusal(withdrawal, sequence) is Some
            &&& 0 < withdrawn <= later.balance(sentinel) ==> later.refusal(withdrawal, sequence)
                == Some(Error::LockPeriodActive)
        }),
{
    let staked = state.next(Call::Stake { sentinel, amount }, staked_at);
    lemma_lock_holds(staked, calls, sentinel, staked_at);
}

/// A withdrawal is accepted once the lock period is over, or where there is none, if it
/// is positive and leaves the minimum.
pub proof fn law_a_withdrawal_after_the_lock_period_is_accepted(
    state: PoolState,
    sentinel: Address,
    amount: i128,
    sequence: u32,
)
    requires
        state.valid(),
        amount > 0,
        !state.locked(sentinel, sequence),
        state.balance(sentinel) - amount >= state.required_stake(),
    ensures
        state.refusal(Call::Withdraw { sentinel, amount }, sequence) is None,
{
}

/// Whether a slashing is accepted does not depend on the ledger, so not on the lock
/// period.
pub proof fn law_slashing_ignores_the_lock_period(
    state: PoolState,
    slashing: Call,
    early: u32,
    late: u32,
)
    requires
        slashing is Slash,
    ensures
        state.refusal(slashing, early) == state.refusal(slashing, late),
{
}

/// Withdrawing what was just staked gives every sentinel its former balance.
pub proof fn law_a_withdrawal_undoes_a_stake(
    state: PoolState,
    sentinel: Address,
    amount: i128,
    staked_at: u32,
    withdrawn_at: u32,
    anyone: Address,
)
    requires
        state.refusal(Call::Stake { sentinel, amount }, staked_at) is None,
        state.next(Call::Stake { sentinel, amount }, staked_at).refusal(
            Call::Withdraw { sentinel, amount },
            withdrawn_at,
        ) is None,
    ensures
        state.next(Call::Stake { sentinel, amount }, staked_at).next(
            Call::Withdraw { sentinel, amount },
            withdrawn_at,
        ).balance(anyone) == state.balance(anyone),
{
}

/// Staking in two parts comes to the same as staking the sum at the second part's
/// ledger.
pub proof fn law_stakes_add_up(
    state: PoolState,
    sentinel: Address,
    first: i128,
    second: i128,
    sum: i128,
    first_sequence: u32,
    sequence: u32,
)
    requires
        sum == first + second,
        state.refusal(Call::Stake { sentinel, amount: first }, first_sequence) is None,
        state.next(Call::Stake { sentinel, amount: first }, first_sequence).refusal(
            Call::Stake { sentinel, amount: second },
            sequence,
        ) is None,
    ensures
        state.refusal(Call::Stake { sentinel, amount: sum }, sequence) is None,
        state.next(Call::Stake { sentinel, amount: sum }, sequence) == state.next(
            Call::Stake { sentinel, amount: first },
            first_sequence,
        ).next(Call::Stake { sentinel, amount: second }, sequence),
{
    let apart = state.next(Call::Stake { sentinel, amount: first }, first_sequence).next(
        Call::Stake { sentinel, amount: second },
        sequence,
    );
    let together = state.next(Call::Stake { sentinel, amount: sum }, sequence);
    assert(apart.stake_table() =~= together.stake_table());
    assert(apart.staked_at_table() =~= together.staked_at_table());
    assert(apart =~= together);
}

/// In a pool that has been set up, a sentinel that has a stake always keeps one.
pub proof fn law_a_stake_never_vanishes(
    state: PoolState,
    calls: Seq<(Call, u32)>,
    sentinel: Address,
)
    requires
        state.valid(),
        state.admin is Some,
        state.balance(sentinel) > 0,
    ensures
        state.run(calls).balance(sentinel) > 0,
    decreases calls.len(),
{
    if calls.len() > 0 {
        let before = state.run(calls.drop_last());
        let (call, sequence) = calls.last();
        law_a_stake_never_vanishes(state, calls.drop_last(), sentinel);
        law_the_administrator_stays(state, calls.drop_last());
        lemma_run_is_valid(state, calls.drop_last());
        assert(before.has(DataKey::MinStake));
    }
}

/// A call that does not set a higher minimum stake leaves a balance that is nothing, or
/// at least the minimum, such a balance.
pub proof fn law_a_call_keeps_balances_at_the_minimum(
    state: PoolState,
    call: Call,
    sequence: u32,
    sentinel: Address,
)
    requires
        state.reaches_minimum(sentinel),
        call is SetMinStake ==> state.next(call, sequence).required_stake()
            <= state.required_stake(),
    ensures
        state.next(call, sequence).reaches_minimum(sentinel),
{
}

/// Over a series of calls of which none sets a higher minimum stake, a balance that is
/// nothing, or at least the minimum, stays such a balance.
pub proof fn law_balances_stay_at_the_minimum(
    state: PoolState,
    calls: Seq<(Call, u32)>,
    sentinel: Address,
)
    requires
        state.reaches_minimum(sentinel),
        state.no_higher_minimum_in(calls),
    ensures
        state.run(calls).reaches_minimum(sentinel),
    decreases calls.len(),
{
    if calls.len() > 0 {
        let (call, sequence) = calls.last();
        law_balances_stay_at_the_minimum(state, calls.drop_last(), sentinel);
        law_a_call_keeps_balances_at_the_minimum(
            state.run(calls.drop_last()),
            call,
            sequence,
            sentinel,
        );
    }
}

/// Pools that agree on the settings, and on the entries of the sentinel that a call is
/// about, answer the call alike, announce the same and agree on them again. An accepted
/// setup makes them the same.
pub proof fn law_a_call_looks_only_at_its_subject(
    state: PoolState,
    other: PoolState,
    call: Call,
    sequence: u32,
)
    requires
        state.agrees_for(call, other),
    ensures
        state.refusal(call, sequence) == other.refusal(call, sequence),
        state.announced(call) == other.announced(call),
        state.next(call, sequence).agrees_for(call, other.next(call, sequence)),
        call is Initialize && state.refusal(call, sequence) is None ==> state.next(
            call,
            sequence,
        ) == other.next(call, sequence),
{
    if let Some(subject) = call.subject() {
        assert(state.balance(subject) == other.balance(subject));
        assert(state.last_staked(subject) == other.last_staked(subject));
    }
    if let Call::Slash { sentinel, reason, .. } = call {
        assert(state.proof_used(sentinel, reason) == other.proof_used(sentinel, reason));
    }
}

/// While no call sets the pool up, a sentinel's balance is what it was, plus what the
/// announced stakes added, less what the announced withdrawals and slashings took.
pub proof fn law_the_events_account_for_the_balance(
    state: PoolState,
    calls: Seq<(Call, u32)>,
    sentinel: Address,
)
    requires
        state.no_setup_in(calls),
    ensures
        state.run(calls).balance(sentinel) == state.balance(sentinel) + moved_by(
            state.announced_by(calls),
            sentinel,
        ),
    decreases calls.len(),
{
    if calls.len() > 0 {
        let before = state.run(calls.drop_last());
        let (call, sequence) = calls.last();
        let earlier = state.announced_by(calls.drop_last());
        lemma_no_setup_in(state, calls);
        law_the_events_account_for_the_balance(state, calls.drop_last(), sentinel);
        if before.refusal(call, sequence) is None {
            lemma_moved_by_one_more(earlier, before.announced(call), sentinel);
        }
    }
}

/// Adding at most one event adds what it moves.
proof fn lemma_moved_by_one_more(earlier: Seq<Event>, added: Seq<Event>, sentinel: Address)
    requires
        added.len() <= 1,
    ensures
        moved_by(earlier + added, sentinel) == moved_by(earlier, sentinel) + (if added.len()
            == 1 {
            moved(added[0], sentinel)
        } else {
            0
        }),
{
    if added.len() == 1 {
        assert((earlier + added).drop_last() =~= earlier);
    } else {
        assert(earlier + added =~= earlier);
    }
}

/// Where no call of a series sets the pool up, the last one is not an accepted setup.
proof fn lemma_no_setup_in(state: PoolState, calls: Seq<(Call, u32)>)
    requires
        calls.len() > 0,
        state.no_setup_in(calls),
    ensures
        state.no_setup_in(calls.drop_last()),
        calls.last().0 is Initialize ==> state.run(calls.drop_last()).refusal(
            calls.last().0,
            calls.last().1,
        ) is Some,
{
    let earlier = calls.drop_last();
    if state.admin is Some {
        law_the_administrator_stays(state, earlier);
    } else {
        assert forall|i: int| 0 <= i < earlier.len() && (#[trigger] earlier[i]).0 is Initialize
            implies earlier[i].0.argument_error() is Some by {
            assert(earlier[i] == calls[i]);
        }
    }
}

/// A valid pool is valid after a series of calls.
proof fn lemma_run_is_valid(state: PoolState, calls: Seq<(Call, u32)>)
    requires
        state.valid(),
    ensures
        state.run(calls).valid(),
    decreases calls.len(),
{
    if calls.len() > 0 {
        lemma_run_is_valid(state, calls.drop_last());
        let (call, sequence) = calls.last();
        law_calls_keep_the_pool_valid(state.run(calls.drop_last()), call, sequence);
    }
}

/// While no call sets the pool up, calls at or after a ledger sequence keep a
/// sentinel's last stake at or after it, and the lock period as it is.
proof fn lemma_lock_holds(
    state: PoolState,
    calls: Seq<(Call, u32)>,
    sentinel: Address,
    sequence: u32,
)
    requires
        state.no_setup_in(calls),
        state.last_staked(sentinel) >= sequence,
        forall|i: int| 0 <= i < calls.len() ==> (#[trigger] calls[i]).1 >= sequence,
    ensures
        state.run(calls).last_staked(sentinel) >= sequence,
        state.run(calls).lock() == state.lock(),
    decreases calls.len(),
{
    if calls.len() > 0 {
        let earlier = calls.drop_last();
        assert forall|i: int| 0 <= i < earlier.len() implies (#[trigger] earlier[i]).1
            >= sequence by {
            assert(earlier[i] == calls[i]);
        }
        assert(calls[calls.len() - 1].1 >= sequence);
        lemma_no_setup_in(state, calls);
        lemma_lock_holds(state, earlier, sentinel, sequence);
    }
}

} // verus!
