//! What each call is for, in terms of the numbers that are stored: what it reads, when it
//! is accepted, with which error it is refused, and what it leaves behind.

use vstd::prelude::*;

use crate::bytes::{big_endian, lemma_sixteen_bytes_fit};
use crate::env::{Instance, PoolEnv};
use crate::host::lookup;
use crate::model::{Call, EnvState, PoolState};
use crate::types::{
    spec_proof_key, Address, DataKey, Error, Event, SlashedEvent, StakedEvent, Symbol,
    ThresholdUpdatedEvent, WithdrawnEvent,
};

verus! {

/// The value that a stored table has under a key, if the table was written and has one.
pub open spec fn entry<K, V>(table: Option<Map<K, V>>, key: K) -> Option<V> {
    if table is Some && table->0.dom().contains(key) {
        Some(table->0[key])
    } else {
        None
    }
}

/// Whether a table was written and differs from an earlier one at most under a key.
pub open spec fn changed_only_at<K, V>(
    before: Option<Map<K, V>>,
    after: Option<Map<K, V>>,
    key: K,
) -> bool {
    &&& after is Some
    &&& forall|other: K| other != key ==> #[trigger] entry(after, other) == entry(before, other)
}

/// Whether the settings of two pools are the same.
pub open spec fn same_settings(before: PoolState, after: PoolState) -> bool {
    &&& after.admin == before.admin
    &&& after.min_stake == before.min_stake
    &&& after.lock_period == before.lock_period
    &&& after.threshold == before.threshold
}

/// Whether two environments differ at most in what is stored and announced.
pub open spec fn same_surroundings(before: EnvState, after: EnvState) -> bool {
    &&& after.host == before.host
    &&& after.sequence == before.sequence
    &&& after.authorizers == before.authorizers
}

/// A sentinel's balance is the amount stored for it, and 0 where none is.
pub proof fn law_a_balance_is_the_stored_amount(state: PoolState, sentinel: Address)
    ensures
        entry(state.stakes, sentinel) is Some ==> Some(state.balance(sentinel)) == entry(
            state.stakes,
            sentinel,
        ),
        entry(state.stakes, sentinel) is None ==> state.balance(sentinel) == 0,
{
}

/// A sentinel's last stake is the sequence stored for it, and 0 where none is.
pub proof fn law_the_last_stake_is_the_stored_sequence(state: PoolState, sentinel: Address)
    ensures
        entry(state.staked_at, sentinel) is Some ==> Some(state.last_staked(sentinel)) == entry(
            state.staked_at,
            sentinel,
        ),
        entry(state.staked_at, sentinel) is None ==> state.last_staked(sentinel) == 0,
{
}

/// A proof is used where the flag stored for it says so, and nowhere else.
pub proof fn law_a_proof_is_used_where_it_is_stored(
    state: PoolState,
    sentinel: Address,
    reason: Symbol,
)
    ensures
        state.proof_used(sentinel, reason) <==> entry(state.slash_proofs, (sentinel, reason))
            == Some(true),
{
}

/// The minimum stake and the lock period are the stored numbers, and 0 where none is.
pub proof fn law_the_limits_are_the_stored_numbers(state: PoolState)
    ensures
        state.min_stake is Some ==> Some(state.required_stake()) == state.min_stake,
        state.min_stake is None ==> state.required_stake() == 0,
        state.lock_period is Some ==> Some(state.lock()) == state.lock_period,
        state.lock_period is None ==> state.lock() == 0,
{
}

/// The quorum is the stored threshold. Where none is stored, it is the one that the
/// caller requires, whichever that is.
pub proof fn law_the_quorum_is_stored_or_required(state: PoolState, required: u32)
    ensures
        state.threshold is Some ==> Some(state.threshold_or(required)) == state.threshold,
        state.threshold is None ==> state.threshold_or(required) == required,
{
}

/// A pool without an administrator is governed by anybody, and one with an
/// administrator by that one alone.
pub proof fn law_the_administrator_or_anybody_governs(state: PoolState, address: Address)
    ensures
        state.governed_by(address) <==> state.admin is None || state.admin == Some(address),
{
}

/// A stake is locked exactly while there is a lock period and fewer ledgers than it have
/// passed since the stake.
pub proof fn law_a_lock_ends_with_its_period(state: PoolState, sentinel: Address, sequence: u32)
    ensures
        state.locked(sentinel, sequence) <==> state.lock() > 0 && sequence
            - state.last_staked(sentinel) < state.lock(),
{
}

/// An entry of the storage was written exactly where it holds something.
pub proof fn law_written_entries_hold_something(state: PoolState)
    ensures
        state.has(DataKey::Admin) <==> state.admin is Some,
        state.has(DataKey::MinStake) <==> state.min_stake is Some,
        state.has(DataKey::LockPeriod) <==> state.lock_period is Some,
        state.has(DataKey::Threshold) <==> state.threshold is Some,
        state.has(DataKey::Stakes) <==> state.stakes is Some,
        state.has(DataKey::StakedAt) <==> state.staked_at is Some,
        state.has(DataKey::SlashProofs) <==> state.slash_proofs is Some,
{
}

/// Storage to which nothing was written holds nothing.
pub proof fn law_unwritten_storage_holds_nothing(key: DataKey)
    ensures
        !PoolState::unwritten().has(key),
        PoolState::unwritten().admin is None,
        PoolState::unwritten().min_stake is None,
        PoolState::unwritten().lock_period is None,
        PoolState::unwritten().threshold is None,
        PoolState::unwritten().stakes is None,
        PoolState::unwritten().staked_at is None,
        PoolState::unwritten().slash_proofs is None,
{
}

/// What is stored is what the storage's fields hold.
pub proof fn law_storage_is_seen_as_it_is(instance: Instance)
    ensures
        instance@.admin == instance.admin,
        instance@.min_stake == instance.min_stake,
        instance@.lock_period == instance.lock_period,
        instance@.threshold == instance.threshold,
        instance@.stakes is Some <==> instance.stakes is Some,
        instance.stakes is Some ==> instance@.stakes == Some(instance.stakes->0@),
        instance@.staked_at is Some <==> instance.staked_at is Some,
        instance.staked_at is Some ==> instance@.staked_at == Some(instance.staked_at->0@),
        instance@.slash_proofs is Some <==> instance.slash_proofs is Some,
        instance.slash_proofs is Some ==> instance@.slash_proofs == Some(
            instance.slash_proofs->0@,
        ),
{
}

/// An environment is what its fields hold, its authorizers in no order.
pub proof fn law_an_environment_is_seen_as_it_is(env: PoolEnv, address: Address)
    ensures
        env@.host == env.host,
        env@.storage == env.storage@,
        env@.sequence == env.sequence,
        env@.events == env.events@,
        env@.authorizers.contains(address) <==> exists|i: int|
            0 <= i < env.authorizers@.len() && env.authorizers@[i] == address,
{
}

/// Looking a key up finds what the map has under it, or nothing.
pub proof fn law_lookup_finds_what_is_there<K, V>(entries: Map<K, V>, key: K)
    ensures
        entries.dom().contains(key) ==> lookup(entries, key) == Some(entries[key]),
        !entries.dom().contains(key) ==> lookup(entries, key) is None,
{
}

/// The errors are numbered from 1 in the order of their declaration.
pub proof fn law_errors_are_numbered_in_order()
    ensures
        Error::InvalidStake.spec_code() == 1,
        Error::Unauthorized.spec_code() == Error::InvalidStake.spec_code() + 1,
        Error::StakeBelowMinimum.spec_code() == Error::Unauthorized.spec_code() + 1,
        Error::LockPeriodActive.spec_code() == Error::StakeBelowMinimum.spec_code() + 1,
        Error::InvalidThreshold.spec_code() == Error::LockPeriodActive.spec_code() + 1,
        Error::InvalidAmount.spec_code() == Error::InvalidThreshold.spec_code() + 1,
        Error::FraudProofAlreadyUsed.spec_code() == Error::InvalidAmount.spec_code() + 1,
        Error::InsufficientBalance.spec_code() == Error::FraudProofAlreadyUsed.spec_code() + 1,
{
}

/// The number that bytes spell grows by one digit to the base 256 with each byte.
pub proof fn law_bytes_are_digits(bytes: Seq<u8>, byte: u8)
    ensures
        big_endian(Seq::<u8>::empty()) == 0,
        big_endian(bytes.push(byte)) == 256 * big_endian(bytes) + byte,
{
    assert(bytes.push(byte).drop_last() =~= bytes);
}

/// The halves of an address and of a symbol are the numbers that the first and the last
/// 16 of their 32 bytes spell.
pub proof fn law_identities_are_made_of_two_numbers(bytes: Seq<u8>)
    requires
        bytes.len() == 32,
    ensures
        ({
            let high = big_endian(bytes.take(16));
            let low = big_endian(bytes.skip(16));
            &&& Address::of_account(bytes) matches Address::Account { hi, lo } && hi == high && lo
                == low
            &&& Address::of_contract(bytes) matches Address::Contract { hi, lo } && hi == high
                && lo == low
            &&& Symbol::of_text(bytes).hi == high
            &&& Symbol::of_text(bytes).lo == low
        }),
{
    assert(bytes.take(16) =~= bytes.subrange(0, 16));
    assert(bytes.skip(16) =~= bytes.subrange(16, 32));
    lemma_sixteen_bytes_fit(bytes.take(16));
    lemma_sixteen_bytes_fit(bytes.skip(16));
}

/// The integers that stand for an address keep its halves, and those that stand for a
/// proof keep the address and the reason.
pub proof fn law_keys_keep_what_they_stand_for(hi: u128, lo: u128, reason: Symbol)
    ensures
        (Address::Account { hi, lo }).spec_key() == (0u32, hi, lo),
        (Address::Contract { hi, lo }).spec_key() == (1u32, hi, lo),
        spec_proof_key((Address::Account { hi, lo }), reason) == (
            0u32,
            hi,
            lo,
            reason.hi,
            reason.lo,
        ),
        spec_proof_key((Address::Contract { hi, lo }), reason) == (
            1u32,
            hi,
            lo,
            reason.hi,
            reason.lo,
        ),
{
}

/// An amount is in order exactly if it is positive, and so are a minimum stake and a
/// threshold. A minimum stake out of order counts before a threshold.
pub proof fn law_arguments_must_be_positive(
    admin: Address,
    sentinel: Address,
    amount: i128,
    reason: Symbol,
    lock_period: u64,
    threshold: u32,
)
    ensures
        ({
            let of_amount = if amount > 0 {
                None
            } else {
                Some(Error::InvalidStake)
            };
            let of_threshold = if threshold > 0 {
                None
            } else {
                Some(Error::InvalidThreshold)
            };
            &&& (Call::Stake { sentinel, amount }).argument_error() == of_amount
            &&& (Call::Withdraw { sentinel, amount }).argument_error() == of_amount
            &&& (Call::Slash { admin, sentinel, amount, reason }).argument_error() == of_amount
            &&& (Call::SetMinStake { admin, min_stake: amount }).argument_error() == of_amount
            &&& (Call::SetThreshold { admin, threshold }).argument_error() == of_threshold
            &&& (Call::Initialize {
                admin,
                min_stake: amount,
                lock_period,
                threshold,
            }).argument_error() == (if amount > 0 {
                of_threshold
            } else {
                of_amount
            })
        }),
{
}

/// A sentinel acts in its own stakes and withdrawals, and an administrator in the rest.
pub proof fn law_calls_act_for_their_first_address(
    admin: Address,
    sentinel: Address,
    amount: i128,
    reason: Symbol,
    lock_period: u64,
    threshold: u32,
)
    ensures
        (Call::Stake { sentinel, amount }).actor() == sentinel,
        (Call::Withdraw { sentinel, amount }).actor() == sentinel,
        (Call::Slash { admin, sentinel, amount, reason }).actor() == admin,
        (Call::SetMinStake { admin, min_stake: amount }).actor() == admin,
        (Call::SetThreshold { admin, threshold }).actor() == admin,
        (Call::Initialize { admin, min_stake: amount, lock_period, threshold }).actor() == admin,
{
}

/// A call can be made exactly where its arguments are out of order or its actor has
/// authorized it.
pub proof fn law_a_call_needs_its_actors_authorization(env: EnvState, call: Call)
    ensures
        env.admits(call) <==> call.argument_error() is Some || env.authorizers.contains(
            call.actor(),
        ),
{
}

/// An environment answers a call as its storage does at its ledger, and stores what comes
/// of it.
pub proof fn law_an_environment_answers_for_its_storage(env: EnvState, call: Call)
    ensures
        env.answer(call) is Ok <==> env.storage.refusal(call, env.sequence) is None,
        env.answer(call) is Err ==> Some(env.answer(call)->Err_0) == env.storage.refusal(
            call,
            env.sequence,
        ),
        env.after(call).storage == env.storage.next(call, env.sequence),
{
}

/// A setup is accepted exactly if the minimum stake and the threshold are positive and no
/// administrator is stored, whatever the lock period.
pub proof fn law_when_a_setup_is_accepted(
    env: EnvState,
    admin: Address,
    min_stake: i128,
    lock_period: u64,
    threshold: u32,
)
    ensures
        ({
            let answer = env.answer(
                Call::Initialize { admin, min_stake, lock_period, threshold },
            );
            &&& answer is Ok <==> min_stake > 0 && threshold > 0 && env.storage.admin is None
            &&& answer == Err::<(), Error>(Error::InvalidStake) <==> min_stake <= 0
            &&& answer == Err::<(), Error>(Error::InvalidThreshold) <==> min_stake > 0
                && threshold == 0
            &&& answer == Err::<(), Error>(Error::Unauthorized) <==> min_stake > 0 && threshold
                > 0 && env.storage.admin is Some
        }),
{
}

/// An accepted setup stores the four settings and three empty tables, and announces
/// nothing.
pub proof fn law_what_a_setup_leaves(
    env: EnvState,
    admin: Address,
    min_stake: i128,
    lock_period: u64,
    threshold: u32,
)
    requires
        env.answer(Call::Initialize { admin, min_stake, lock_period, threshold }) is Ok,
    ensures
        ({
            let after = env.after(Call::Initialize { admin, min_stake, lock_period, threshold });
            &&& same_surroundings(env, after)
            &&& after.events == env.events
            &&& after.storage.admin == Some(admin)
            &&& after.storage.min_stake == Some(min_stake)
            &&& after.storage.lock_period == Some(lock_period)
            &&& after.storage.threshold == Some(threshold)
            &&& after.storage.stakes == Some(Map::<Address, i128>::empty())
            &&& after.storage.staked_at == Some(Map::<Address, u64>::empty())
            &&& after.storage.slash_proofs == Some(Map::<(Address, Symbol), bool>::empty())
        }),
{
}

/// A stake is accepted exactly if its amount is positive and the balance with it fits and
/// reaches the minimum.
pub proof fn law_when_a_stake_is_accepted(env: EnvState, sentinel: Address, amount: i128)
    ensures
        ({
            let answer = env.answer(Call::Stake { sentinel, amount });
            let total = env.storage.balance(sentinel) + amount;
            let minimum = env.storage.required_stake();
            &&& answer is Ok <==> amount > 0 && minimum <= total <= i128::MAX
            &&& answer == Err::<(), Error>(Error::InvalidStake) <==> amount <= 0 || total
                > i128::MAX
            &&& answer == Err::<(), Error>(Error::StakeBelowMinimum) <==> amount > 0 && total
                <= i128::MAX && total < minimum
        }),
{
}

/// An accepted stake adds its amount to the sentinel's balance, notes the ledger, changes
/// nothing else and announces the amount and the new balance.
pub proof fn law_what_a_stake_leaves(env: EnvState, sentinel: Address, amount: i128)
    requires
        env.answer(Call::Stake { sentinel, amount }) is Ok,
    ensures
        ({
            let after = env.after(Call::Stake { sentinel, amount });
            let total = (env.storage.balance(sentinel) + amount) as i128;
            &&& same_surroundings(env, after)
            &&& same_settings(env.storage, after.storage)
            &&& after.storage.slash_proofs == env.storage.slash_proofs
            &&& changed_only_at(env.storage.stakes, after.storage.stakes, sentinel)
            &&& changed_only_at(env.storage.staked_at, after.storage.staked_at, sentinel)
            &&& entry(after.storage.stakes, sentinel) == Some(total)
            &&& total == env.storage.balance(sentinel) + amount
            &&& entry(after.storage.staked_at, sentinel) == Some(env.sequence as u64)
            &&& after.events == env.events.push(
                Event::Staked(StakedEvent { sentinel, amount, total }),
            )
        }),
{
}

/// A withdrawal is accepted exactly if its amount is positive and covered, as many ledgers
/// as the lock period have passed since the sentinel's last stake, and the minimum is
/// left. Of what stands against it, the first in that order is the answer.
pub proof fn law_when_a_withdrawal_is_accepted(env: EnvState, sentinel: Address, amount: i128)
    ensures
        ({
            let answer = env.answer(Call::Withdraw { sentinel, amount });
            let left = env.storage.balance(sentinel) - amount;
            let lock = env.storage.lock();
            let free = lock == 0 || env.sequence >= env.storage.last_staked(sentinel) + lock;
            let minimum = env.storage.required_stake();
            &&& answer is Ok <==> amount > 0 && left >= 0 && free && left >= minimum
            &&& answer == Err::<(), Error>(Error::InvalidStake) <==> amount <= 0
            &&& answer == Err::<(), Error>(Error::InsufficientBalance) <==> amount > 0 && left
                < 0
            &&& answer == Err::<(), Error>(Error::LockPeriodActive) <==> amount > 0 && left >= 0
                && !free
            &&& answer == Err::<(), Error>(Error::StakeBelowMinimum) <==> amount > 0 && left >= 0
                && free && left < minimum
        }),
{
}

/// An accepted withdrawal takes its amount off the sentinel's balance, changes nothing
/// else and announces the amount and the new balance.
pub proof fn law_what_a_withdrawal_leaves(env: EnvState, sentinel: Address, amount: i128)
    requires
        env.answer(Call::Withdraw { sentinel, amount }) is Ok,
    ensures
        ({
            let after = env.after(Call::Withdraw { sentinel, amount });
            let remaining = (env.storage.balance(sentinel) - amount) as i128;
            &&& same_surroundings(env, after)
            &&& same_settings(env.storage, after.storage)
            &&& after.storage.staked_at == env.storage.staked_at
            &&& after.storage.slash_proofs == env.storage.slash_proofs
            &&& changed_only_at(env.storage.stakes, after.storage.stakes, sentinel)
            &&& entry(after.storage.stakes, sentinel) == Some(remaining)
            &&& remaining == env.storage.balance(sentinel) - amount
            &&& after.events == env.events.push(
                Event::Withdrawn(WithdrawnEvent { sentinel, amount, remaining }),
            )
        }),
{
}

/// A slashing is accepted exactly if its amount is positive, its actor governs the pool,
/// the proof is unused, and the balance covers the amount and leaves the minimum. Of what
/// stands against it, the first in that order is the answer.
pub proof fn law_when_a_slashing_is_accepted(
    env: EnvState,
    admin: Address,
    sentinel: Address,
    amount: i128,
    reason: Symbol,
)
    ensures
        ({
            let answer = env.answer(Call::Slash { admin, sentinel, amount, reason });
            let governs = env.storage.admin is None || env.storage.admin == Some(admin);
            let unused = entry(env.storage.slash_proofs, (sentinel, reason)) != Some(true);
            let left = env.storage.balance(sentinel) - amount;
            let minimum = env.storage.required_stake();
            &&& answer is Ok <==> amount > 0 && governs && unused && left >= 0 && left >= minimum
            &&& answer == Err::<(), Error>(Error::InvalidStake) <==> amount <= 0
            &&& answer == Err::<(), Error>(Error::Unauthorized) <==> amount > 0 && !governs
            &&& answer == Err::<(), Error>(Error::FraudProofAlreadyUsed) <==> amount > 0
                && governs && !unused
            &&& answer == Err::<(), Error>(Error::InsufficientBalance) <==> amount > 0 && governs
                && unused && left < 0
            &&& answer == Err::<(), Error>(Error::StakeBelowMinimum) <==> amount > 0 && governs
                && unused && left >= 0 && left < minimum
        }),
{
}

/// An accepted slashing takes its amount off the sentinel's balance, marks the proof used,
/// changes nothing else and announces the sentinel, the reason and the amount.
pub proof fn law_what_a_slashing_leaves(
    env: EnvState,
    admin: Address,
    sentinel: Address,
    amount: i128,
    reason: Symbol,
)
    requires
        env.answer(Call::Slash { admin, sentinel, amount, reason }) is Ok,
    ensures
        ({
            let after = env.after(Call::Slash { admin, sentinel, amount, reason });
            let remaining = (env.storage.balance(sentinel) - amount) as i128;
            &&& same_surroundings(env, after)
            &&& same_settings(env.storage, after.storage)
            &&& after.storage.staked_at == env.storage.staked_at
            &&& changed_only_at(env.storage.stakes, after.storage.stakes, sentinel)
            &&& entry(after.storage.stakes, sentinel) == Some(remaining)
            &&& remaining == env.storage.balance(sentinel) - amount
            &&& changed_only_at(
                env.storage.slash_proofs,
                after.storage.slash_proofs,
                (sentinel, reason),
            )
            &&& entry(after.storage.slash_proofs, (sentinel, reason)) == Some(true)
            &&& after.events == env.events.push(
                Event::Slashed(SlashedEvent { sentinel, reason, amount }),
            )
        }),
{
}

/// A threshold is accepted exactly if it is positive and its actor governs the pool.
pub proof fn law_when_a_threshold_is_accepted(env: EnvState, admin: Address, threshold: u32)
    ensures
        ({
            let answer = env.answer(Call::SetThreshold { admin, threshold });
            let governs = env.storage.admin is None || env.storage.admin == Some(admin);
            &&& answer is Ok <==> threshold > 0 && governs
            &&& answer == Err::<(), Error>(Error::InvalidThreshold) <==> threshold == 0
            &&& answer == Err::<(), Error>(Error::Unauthorized) <==> threshold > 0 && !governs
        }),
{
}

/// An accepted threshold is stored, and announced with its actor. Nothing else changes.
pub proof fn law_what_a_threshold_leaves(env: EnvState, admin: Address, threshold: u32)
    requires
        env.answer(Call::SetThreshold { admin, threshold }) is Ok,
    ensures
        ({
            let after = env.after(Call::SetThreshold { admin, threshold });
            &&& same_surroundings(env, after)
            &&& after.storage.threshold == Some(threshold)
            &&& after.storage.admin == env.storage.admin
            &&& after.storage.min_stake == env.storage.min_stake
            &&& after.storage.lock_period == env.storage.lock_period
            &&& after.storage.stakes == env.storage.stakes
            &&& after.storage.staked_at == env.storage.staked_at
            &&& after.storage.slash_proofs == env.storage.slash_proofs
            &&& after.events == env.events.push(
                Event::ThresholdUpdated(ThresholdUpdatedEvent { actor: admin, threshold }),
            )
        }),
{
}

/// A minimum stake is accepted exactly if it is positive and its actor governs the pool.
pub proof fn law_when_a_minimum_is_accepted(env: EnvState, admin: Address, min_stake: i128)
    ensures
        ({
            let answer = env.answer(Call::SetMinStake { admin, min_stake });
            let governs = env.storage.admin is None || env.storage.admin == Some(admin);
            &&& answer is Ok <==> min_stake > 0 && governs
            &&& answer == Err::<(), Error>(Error::InvalidStake) <==> min_stake <= 0
            &&& answer == Err::<(), Error>(Error::Unauthorized) <==> min_stake > 0 && !governs
        }),
{
}

/// An accepted minimum stake is stored. Nothing else changes and nothing is announced.
pub proof fn law_what_a_minimum_leaves(env: EnvState, admin: Address, min_stake: i128)
    requires
        env.answer(Call::SetMinStake { admin, min_stake }) is Ok,
    ensures
        ({
            let after = env.after(Call::SetMinStake { admin, min_stake });
            &&& same_surroundings(env, after)
            &&& after.events == env.events
            &&& after.storage.min_stake == Some(min_stake)
            &&& after.storage.admin == env.storage.admin
            &&& after.storage.lock_period == env.storage.lock_period
            &&& after.storage.threshold == env.storage.threshold
            &&& after.storage.stakes == env.storage.stakes
            &&& after.storage.staked_at == env.storage.staked_at
            &&& after.storage.slash_proofs == env.storage.slash_proofs
        }),
{
}

} // verus!
