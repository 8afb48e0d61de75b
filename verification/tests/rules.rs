//! The pool's rules at their edges, and its laws on concrete values.

use sentinel_pool::{
    Address, DataKey, Error, Event, Instance, PoolEnv, ProofTable, SentinelPool, SlashedEvent,
    StakeTable, StakedAtTable, StakedEvent, Symbol, ThresholdUpdatedEvent, WithdrawnEvent,
};
use soroban_sdk::testutils::EnvTestConfig;
use soroban_sdk::Env;

const ADMIN: Address = Address::Account { hi: 1, lo: 1 };
const ALICE: Address = Address::Contract { hi: 1, lo: 1 };
const BOB: Address = Address::Contract { hi: 1, lo: 2 };
const FRAUD: Symbol = Symbol { hi: 7, lo: 0 };
const OUTAGE: Symbol = Symbol { hi: 0, lo: 7 };

fn host() -> Env {
    Env::new_with_config(EnvTestConfig { capture_snapshot_at_drop: false })
}

/// A pool to which nothing was ever written.
fn unwritten() -> PoolEnv {
    let mut env = PoolEnv::new(host(), Instance::empty(), 5);
    env.authorize(ADMIN);
    env.authorize(ALICE);
    env.authorize(BOB);
    env
}

/// A pool with minimum stake 100, lock period 10 and threshold 2.
fn pool() -> PoolEnv {
    let mut env = unwritten();
    assert_eq!(SentinelPool::initialize(&mut env, ADMIN, 100, 10, 2), Ok(()));
    env
}

#[test]
fn every_error_has_its_code() {
    assert_eq!(Error::InvalidStake.code(), 1);
    assert_eq!(Error::Unauthorized.code(), 2);
    assert_eq!(Error::StakeBelowMinimum.code(), 3);
    assert_eq!(Error::LockPeriodActive.code(), 4);
    assert_eq!(Error::InvalidThreshold.code(), 5);
    assert_eq!(Error::InvalidAmount.code(), 6);
    assert_eq!(Error::FraudProofAlreadyUsed.code(), 7);
    assert_eq!(Error::InsufficientBalance.code(), 8);
}

#[test]
fn bytes_become_big_endian_halves() {
    let mut bytes = [0u8; 32];
    bytes[14] = 1;
    bytes[15] = 2;
    bytes[31] = 3;
    assert_eq!(Address::account(bytes), Address::Account { hi: 258, lo: 3 });
    assert_eq!(Address::contract(bytes), Address::Contract { hi: 258, lo: 3 });
    assert_eq!(Symbol::from_text(bytes), Symbol { hi: 258, lo: 3 });
    assert_eq!(
        Address::account([255u8; 32]),
        Address::Account { hi: u128::MAX, lo: u128::MAX }
    );
    assert!(Address::account(bytes) != Address::contract(bytes));
    assert_eq!(Address::account(bytes).key(), (0, 258, 3));
    assert_eq!(Address::contract(bytes).key(), (1, 258, 3));
}

#[test]
fn tables_keep_what_is_put_in_them() {
    let host = host();
    let stakes = StakeTable::new(&host);
    assert_eq!(stakes.get(ALICE), None);
    let stakes = stakes.with(ALICE, 5).with(BOB, i128::MIN).with(ALICE, i128::MAX);
    assert_eq!(stakes.get(ALICE), Some(i128::MAX));
    assert_eq!(stakes.get(BOB), Some(i128::MIN));
    assert_eq!(stakes.get(ADMIN), None);

    let staked_at = StakedAtTable::new(&host);
    assert_eq!(staked_at.get(ALICE), None);
    let staked_at = staked_at.with(ALICE, u64::MAX).with(BOB, 0);
    assert_eq!(staked_at.get(ALICE), Some(u64::MAX));
    assert_eq!(staked_at.get(BOB), Some(0));
    assert_eq!(staked_at.get(ADMIN), None);

    let proofs = ProofTable::new(&host);
    assert_eq!(proofs.get(ALICE, FRAUD), None);
    let proofs = proofs.with(ALICE, FRAUD, true).with(BOB, OUTAGE, false);
    assert_eq!(proofs.get(ALICE, FRAUD), Some(true));
    assert_eq!(proofs.get(BOB, OUTAGE), Some(false));
    assert_eq!(proofs.get(ALICE, OUTAGE), None);
    assert_eq!(proofs.get(BOB, FRAUD), None);
}

#[test]
fn setting_up_writes_every_entry() {
    let keys = [
        DataKey::Admin,
        DataKey::MinStake,
        DataKey::LockPeriod,
        DataKey::Threshold,
        DataKey::Stakes,
        DataKey::StakedAt,
        DataKey::SlashProofs,
    ];
    let mut env = unwritten();
    for key in keys {
        assert!(!env.storage.has(key));
    }
    assert_eq!(SentinelPool::initialize(&mut env, ADMIN, 100, 10, 2), Ok(()));
    for key in keys {
        assert!(env.storage.has(key));
    }
    assert_eq!(env.storage.admin, Some(ADMIN));
    assert_eq!(env.storage.lock_period, Some(10));
    assert_eq!(SentinelPool::balance(&env, ALICE), 0);
    assert!(env.events.is_empty());
}

#[test]
fn a_pool_is_set_up_once() {
    let mut env = unwritten();
    assert_eq!(
        SentinelPool::initialize(&mut env, ADMIN, 0, 10, 0),
        Err(Error::InvalidStake)
    );
    assert_eq!(
        SentinelPool::initialize(&mut env, ADMIN, 100, 10, 0),
        Err(Error::InvalidThreshold)
    );
    assert_eq!(env.storage.admin, None);
    assert_eq!(SentinelPool::initialize(&mut env, ADMIN, 100, 0, 1), Ok(()));
    assert_eq!(
        SentinelPool::initialize(&mut env, ALICE, 1, 1, 1),
        Err(Error::Unauthorized)
    );
    assert_eq!(
        SentinelPool::initialize(&mut env, ALICE, -1, 1, 1),
        Err(Error::InvalidStake)
    );
    assert_eq!(env.storage.admin, Some(ADMIN));
    assert_eq!(SentinelPool::min_stake(&env), 100);
}

#[test]
fn setting_up_forgets_earlier_stakes_and_proofs() {
    let mut env = unwritten();
    assert_eq!(SentinelPool::stake(&mut env, ALICE, 30), Ok(()));
    assert_eq!(SentinelPool::slash(&mut env, BOB, ALICE, 10, FRAUD), Ok(()));
    assert_eq!(SentinelPool::balance(&env, ALICE), 20);
    assert_eq!(SentinelPool::initialize(&mut env, ADMIN, 5, 0, 1), Ok(()));
    assert_eq!(SentinelPool::balance(&env, ALICE), 0);
    assert_eq!(SentinelPool::stake(&mut env, ALICE, 30), Ok(()));
    assert_eq!(SentinelPool::slash(&mut env, ADMIN, ALICE, 10, FRAUD), Ok(()));
}

#[test]
fn a_pool_without_an_administrator_takes_stakes_and_is_governed_by_anybody() {
    let mut env = unwritten();
    assert_eq!(SentinelPool::min_stake(&env), 0);
    assert_eq!(SentinelPool::threshold(&env), 0);
    assert_eq!(SentinelPool::quorum_threshold(&env, 9), 9);
    assert_eq!(SentinelPool::stake(&mut env, ALICE, 1), Ok(()));
    assert!(env.storage.has(DataKey::Stakes));
    assert!(env.storage.has(DataKey::StakedAt));
    assert!(!env.storage.has(DataKey::SlashProofs));
    assert_eq!(SentinelPool::withdraw(&mut env, ALICE, 1), Ok(()));
    assert_eq!(SentinelPool::balance(&env, ALICE), 0);
    assert_eq!(SentinelPool::set_threshold(&mut env, BOB, 3), Ok(()));
    assert_eq!(SentinelPool::quorum_threshold(&env, 9), 3);
    assert_eq!(SentinelPool::set_min_stake(&mut env, BOB, 4), Ok(()));
    assert_eq!(SentinelPool::min_stake(&env), 4);
    assert_eq!(env.storage.admin, None);
}

#[test]
fn a_stake_is_positive_and_fits() {
    let mut env = pool();
    assert_eq!(SentinelPool::stake(&mut env, ALICE, 0), Err(Error::InvalidStake));
    assert_eq!(SentinelPool::stake(&mut env, ALICE, -5), Err(Error::InvalidStake));
    assert_eq!(SentinelPool::stake(&mut env, ALICE, i128::MAX), Ok(()));
    assert_eq!(SentinelPool::stake(&mut env, ALICE, 1), Err(Error::InvalidStake));
    assert_eq!(SentinelPool::balance(&env, ALICE), i128::MAX);
}

#[test]
fn the_minimum_counts_the_whole_stake() {
    let mut env = pool();
    assert_eq!(SentinelPool::stake(&mut env, ALICE, 100), Ok(()));
    assert_eq!(SentinelPool::stake(&mut env, ALICE, 1), Ok(()));
    assert_eq!(SentinelPool::balance(&env, ALICE), 101);
    assert_eq!(SentinelPool::set_min_stake(&mut env, ADMIN, 200), Ok(()));
    assert_eq!(SentinelPool::stake(&mut env, ALICE, 98), Err(Error::StakeBelowMinimum));
    assert_eq!(SentinelPool::stake(&mut env, ALICE, 99), Ok(()));
    assert_eq!(SentinelPool::balance(&env, ALICE), 200);
}

#[test]
fn stakes_in_parts_add_up() {
    let mut apart = pool();
    assert_eq!(SentinelPool::stake(&mut apart, ALICE, 120), Ok(()));
    assert_eq!(SentinelPool::stake(&mut apart, ALICE, 30), Ok(()));
    let mut together = pool();
    assert_eq!(SentinelPool::stake(&mut together, ALICE, 150), Ok(()));
    assert_eq!(
        SentinelPool::balance(&apart, ALICE),
        SentinelPool::balance(&together, ALICE)
    );
}

#[test]
fn the_lock_ends_exactly_one_period_after_the_last_stake() {
    let mut env = pool();
    env.sequence = 5;
    assert_eq!(SentinelPool::stake(&mut env, ALICE, 300), Ok(()));
    env.sequence = 14;
    assert_eq!(SentinelPool::withdraw(&mut env, ALICE, 10), Err(Error::LockPeriodActive));
    env.sequence = 15;
    assert_eq!(SentinelPool::withdraw(&mut env, ALICE, 10), Ok(()));
    assert_eq!(SentinelPool::stake(&mut env, ALICE, 10), Ok(()));
    env.sequence = 24;
    assert_eq!(SentinelPool::withdraw(&mut env, ALICE, 10), Err(Error::LockPeriodActive));
    env.sequence = 3;
    assert_eq!(SentinelPool::withdraw(&mut env, ALICE, 10), Err(Error::LockPeriodActive));
    env.sequence = 25;
    assert_eq!(SentinelPool::withdraw(&mut env, ALICE, 10), Ok(()));
    assert_eq!(SentinelPool::withdraw(&mut env, ALICE, 10), Ok(()));
    assert_eq!(SentinelPool::balance(&env, ALICE), 280);
}

#[test]
fn a_pool_without_a_lock_period_does_not_lock() {
    let mut env = unwritten();
    assert_eq!(SentinelPool::initialize(&mut env, ADMIN, 1, 0, 1), Ok(()));
    assert_eq!(SentinelPool::stake(&mut env, ALICE, 3), Ok(()));
    assert_eq!(SentinelPool::withdraw(&mut env, ALICE, 1), Ok(()));
    env.sequence = 1;
    assert_eq!(SentinelPool::withdraw(&mut env, ALICE, 1), Ok(()));
    assert_eq!(SentinelPool::balance(&env, ALICE), 1);
}

#[test]
fn balances_are_nothing_or_at_least_the_minimum_until_it_is_raised() {
    let mut env = pool();
    assert_eq!(SentinelPool::stake(&mut env, ALICE, 99), Err(Error::StakeBelowMinimum));
    assert_eq!(SentinelPool::balance(&env, ALICE), 0);
    assert_eq!(SentinelPool::stake(&mut env, ALICE, 120), Ok(()));
    assert_eq!(SentinelPool::set_min_stake(&mut env, ADMIN, 80), Ok(()));
    env.sequence = 50;
    assert_eq!(SentinelPool::withdraw(&mut env, ALICE, 41), Err(Error::StakeBelowMinimum));
    assert_eq!(SentinelPool::slash(&mut env, ADMIN, ALICE, 40, FRAUD), Ok(()));
    assert_eq!(SentinelPool::balance(&env, ALICE), 80);
    assert_eq!(SentinelPool::set_min_stake(&mut env, ADMIN, 81), Ok(()));
    assert!(SentinelPool::balance(&env, ALICE) < SentinelPool::min_stake(&env));
}

#[test]
fn a_call_looks_only_at_the_entries_of_its_subject() {
    let mut whole = pool();
    assert_eq!(SentinelPool::stake(&mut whole, ALICE, 250), Ok(()));
    assert_eq!(SentinelPool::stake(&mut whole, BOB, 300), Ok(()));
    let mut part = pool();
    assert_eq!(SentinelPool::stake(&mut part, ALICE, 250), Ok(()));
    for env in [&mut whole, &mut part] {
        env.events.clear();
        env.sequence = 40;
        assert_eq!(SentinelPool::withdraw(env, ALICE, 50), Ok(()));
        assert_eq!(SentinelPool::slash(env, ADMIN, ALICE, 50, FRAUD), Ok(()));
        assert_eq!(SentinelPool::balance(env, ALICE), 150);
    }
    assert_eq!(whole.events, part.events);
    assert_eq!(SentinelPool::balance(&whole, BOB), 300);
}

#[test]
fn a_withdrawal_is_checked_for_amount_then_balance_then_lock_then_minimum() {
    let mut env = pool();
    assert_eq!(SentinelPool::stake(&mut env, ALICE, 150), Ok(()));
    assert_eq!(SentinelPool::withdraw(&mut env, ALICE, 0), Err(Error::InvalidStake));
    assert_eq!(SentinelPool::withdraw(&mut env, ALICE, 151), Err(Error::InsufficientBalance));
    assert_eq!(SentinelPool::withdraw(&mut env, ALICE, 51), Err(Error::LockPeriodActive));
    env.sequence = 100;
    assert_eq!(SentinelPool::withdraw(&mut env, ALICE, 51), Err(Error::StakeBelowMinimum));
    assert_eq!(SentinelPool::withdraw(&mut env, ALICE, 150), Err(Error::StakeBelowMinimum));
    assert_eq!(SentinelPool::withdraw(&mut env, BOB, 1), Err(Error::InsufficientBalance));
    assert_eq!(SentinelPool::withdraw(&mut env, ALICE, 50), Ok(()));
    assert_eq!(SentinelPool::balance(&env, ALICE), 100);
}

#[test]
fn a_withdrawal_undoes_a_stake() {
    let mut env = pool();
    assert_eq!(SentinelPool::stake(&mut env, ALICE, 150), Ok(()));
    assert_eq!(SentinelPool::stake(&mut env, BOB, 110), Ok(()));
    assert_eq!(SentinelPool::stake(&mut env, ALICE, 40), Ok(()));
    env.sequence = 100;
    assert_eq!(SentinelPool::withdraw(&mut env, ALICE, 40), Ok(()));
    assert_eq!(SentinelPool::balance(&env, ALICE), 150);
    assert_eq!(SentinelPool::balance(&env, BOB), 110);
}

#[test]
fn a_slashing_is_checked_for_amount_then_administrator_then_proof_then_balance() {
    let mut env = pool();
    assert_eq!(SentinelPool::stake(&mut env, ALICE, 250), Ok(()));
    assert_eq!(
        SentinelPool::slash(&mut env, BOB, ALICE, 0, FRAUD),
        Err(Error::InvalidStake)
    );
    assert_eq!(
        SentinelPool::slash(&mut env, BOB, ALICE, 50, FRAUD),
        Err(Error::Unauthorized)
    );
    assert_eq!(
        SentinelPool::slash(&mut env, ADMIN, ALICE, 251, FRAUD),
        Err(Error::InsufficientBalance)
    );
    assert_eq!(
        SentinelPool::slash(&mut env, ADMIN, ALICE, 151, FRAUD),
        Err(Error::StakeBelowMinimum)
    );
    assert_eq!(SentinelPool::slash(&mut env, ADMIN, ALICE, 50, FRAUD), Ok(()));
    assert_eq!(
        SentinelPool::slash(&mut env, ADMIN, ALICE, 1000, FRAUD),
        Err(Error::FraudProofAlreadyUsed)
    );
    assert_eq!(SentinelPool::slash(&mut env, ADMIN, ALICE, 50, OUTAGE), Ok(()));
    assert_eq!(
        SentinelPool::slash(&mut env, ADMIN, BOB, 50, FRAUD),
        Err(Error::InsufficientBalance)
    );
    assert_eq!(SentinelPool::balance(&env, ALICE), 150);
}

#[test]
fn a_used_proof_stays_used_whatever_follows() {
    let mut env = pool();
    assert_eq!(SentinelPool::stake(&mut env, ALICE, 250), Ok(()));
    assert_eq!(SentinelPool::slash(&mut env, ADMIN, ALICE, 50, FRAUD), Ok(()));
    assert_eq!(SentinelPool::stake(&mut env, ALICE, 250), Ok(()));
    env.sequence = 50;
    assert_eq!(SentinelPool::withdraw(&mut env, ALICE, 20), Ok(()));
    assert_eq!(SentinelPool::slash(&mut env, ADMIN, ALICE, 50, OUTAGE), Ok(()));
    assert_eq!(
        SentinelPool::initialize(&mut env, ADMIN, 100, 10, 2),
        Err(Error::Unauthorized)
    );
    assert_eq!(
        SentinelPool::slash(&mut env, ADMIN, ALICE, 50, FRAUD),
        Err(Error::FraudProofAlreadyUsed)
    );
}

#[test]
fn only_the_administrator_governs() {
    let mut env = pool();
    assert_eq!(SentinelPool::set_threshold(&mut env, ALICE, 0), Err(Error::InvalidThreshold));
    assert_eq!(SentinelPool::set_threshold(&mut env, ALICE, 5), Err(Error::Unauthorized));
    assert_eq!(SentinelPool::set_min_stake(&mut env, ALICE, 0), Err(Error::InvalidStake));
    assert_eq!(SentinelPool::set_min_stake(&mut env, ALICE, 5), Err(Error::Unauthorized));
    assert_eq!(SentinelPool::threshold(&env), 2);
    assert_eq!(SentinelPool::min_stake(&env), 100);
    assert_eq!(SentinelPool::set_threshold(&mut env, ADMIN, 5), Ok(()));
    assert_eq!(SentinelPool::set_min_stake(&mut env, ADMIN, 6), Ok(()));
    assert_eq!(SentinelPool::threshold(&env), 5);
    assert_eq!(SentinelPool::quorum_threshold(&env, 77), 5);
    assert_eq!(SentinelPool::min_stake(&env), 6);
}

#[test]
fn accepted_calls_announce_themselves_and_account_for_the_balance() {
    let mut env = pool();
    assert_eq!(SentinelPool::stake(&mut env, ALICE, 250), Ok(()));
    assert_eq!(SentinelPool::stake(&mut env, ALICE, 50), Ok(()));
    assert_eq!(SentinelPool::set_threshold(&mut env, ADMIN, 3), Ok(()));
    assert_eq!(SentinelPool::set_min_stake(&mut env, ADMIN, 90), Ok(()));
    assert_eq!(SentinelPool::slash(&mut env, ADMIN, ALICE, 60, FRAUD), Ok(()));
    assert_eq!(SentinelPool::withdraw(&mut env, ALICE, 20), Err(Error::LockPeriodActive));
    env.sequence = 40;
    assert_eq!(SentinelPool::withdraw(&mut env, ALICE, 20), Ok(()));
    assert_eq!(
        env.events,
        vec![
            Event::Staked(StakedEvent { sentinel: ALICE, amount: 250, total: 250 }),
            Event::Staked(StakedEvent { sentinel: ALICE, amount: 50, total: 300 }),
            Event::ThresholdUpdated(ThresholdUpdatedEvent { actor: ADMIN, threshold: 3 }),
            Event::Slashed(SlashedEvent { sentinel: ALICE, reason: FRAUD, amount: 60 }),
            Event::Withdrawn(WithdrawnEvent { sentinel: ALICE, amount: 20, remaining: 220 }),
        ]
    );
    assert_eq!(SentinelPool::balance(&env, ALICE), 250 + 50 - 60 - 20);
}

#[test]
fn settings_and_balances_persist_until_a_call_changes_them() {
    let mut env = pool();
    assert_eq!(SentinelPool::stake(&mut env, ALICE, 150), Ok(()));
    assert_eq!(SentinelPool::stake(&mut env, BOB, 400), Ok(()));
    env.sequence = 60;
    assert_eq!(SentinelPool::withdraw(&mut env, BOB, 100), Ok(()));
    assert_eq!(SentinelPool::slash(&mut env, ADMIN, BOB, 100, FRAUD), Ok(()));
    assert_eq!(SentinelPool::threshold(&env), 2);
    assert_eq!(SentinelPool::min_stake(&env), 100);
    assert_eq!(SentinelPool::balance(&env, ALICE), 150);
    assert_eq!(SentinelPool::set_threshold(&mut env, ADMIN, 9), Ok(()));
    assert_eq!(SentinelPool::min_stake(&env), 100);
    assert_eq!(SentinelPool::balance(&env, ALICE), 150);
    assert_eq!(SentinelPool::balance(&env, BOB), 200);
}

#[test]
fn a_stake_never_vanishes_from_a_pool_that_was_set_up() {
    let mut env = unwritten();
    assert_eq!(SentinelPool::initialize(&mut env, ADMIN, 1, 0, 1), Ok(()));
    assert_eq!(SentinelPool::stake(&mut env, ALICE, 3), Ok(()));
    assert_eq!(SentinelPool::withdraw(&mut env, ALICE, 3), Err(Error::StakeBelowMinimum));
    assert_eq!(
        SentinelPool::slash(&mut env, ADMIN, ALICE, 3, FRAUD),
        Err(Error::StakeBelowMinimum)
    );
    assert_eq!(SentinelPool::slash(&mut env, ADMIN, ALICE, 2, FRAUD), Ok(()));
    assert_eq!(SentinelPool::balance(&env, ALICE), 1);
}

#[test]
fn slashing_ignores_the_lock_period() {
    let mut env = pool();
    assert_eq!(SentinelPool::stake(&mut env, ALICE, 250), Ok(()));
    assert_eq!(SentinelPool::withdraw(&mut env, ALICE, 50), Err(Error::LockPeriodActive));
    assert_eq!(SentinelPool::slash(&mut env, ADMIN, ALICE, 50, FRAUD), Ok(()));
}
