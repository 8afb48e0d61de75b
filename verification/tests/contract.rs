//! The pool's calls, one scenario after another.

use sentinel_pool::{Address, Call, Error, Instance, PoolEnv, SentinelPool, Symbol};
use soroban_sdk::testutils::{Address as _, EnvTestConfig, Ledger};
use soroban_sdk::address_payload::AddressPayload;
use soroban_sdk::Env;

fn host() -> Env {
    Env::new_with_config(EnvTestConfig { capture_snapshot_at_drop: false })
}

fn generate(host: &Env) -> Address {
    match soroban_sdk::Address::generate(host).to_payload() {
        Some(AddressPayload::AccountIdPublicKeyEd25519(key)) => Address::account(key.to_array()),
        Some(AddressPayload::ContractIdHash(hash)) => Address::contract(hash.to_array()),
        None => panic!("an address of an unknown kind"),
    }
}

fn symbol(text: &str) -> Symbol {
    let mut bytes = [0u8; 32];
    bytes[..text.len()].copy_from_slice(text.as_bytes());
    Symbol::from_text(bytes)
}

/// An environment in which the given addresses authorize every call.
fn deploy(host: &Env, authorizers: &[Address]) -> PoolEnv {
    let mut env = PoolEnv::new(host.clone(), Instance::empty(), host.ledger().sequence());
    for address in authorizers {
        env.authorize(*address);
    }
    env
}

#[test]
fn stake_and_balance_persist_across_queries() {
    let host = host();
    let admin = generate(&host);
    let sentinel = generate(&host);
    let mut env = deploy(&host, &[admin, sentinel]);

    assert_eq!(SentinelPool::initialize(&mut env, admin, 100, 10, 2), Ok(()));
    assert_eq!(SentinelPool::stake(&mut env, sentinel, 150), Ok(()));

    assert_eq!(SentinelPool::balance(&env, sentinel), 150);
    assert_eq!(SentinelPool::min_stake(&env), 100);
    assert_eq!(SentinelPool::threshold(&env), 2);
}

#[test]
fn stake_below_required_minimum_is_rejected() {
    let host = host();
    let admin = generate(&host);
    let sentinel = generate(&host);
    let mut env = deploy(&host, &[admin, sentinel]);

    assert_eq!(SentinelPool::initialize(&mut env, admin, 100, 10, 2), Ok(()));
    let error = SentinelPool::stake(&mut env, sentinel, 99).unwrap_err();
    assert_eq!(error, Error::StakeBelowMinimum);
    assert_eq!(error.code(), 3);
}

#[test]
fn governance_threshold_updates_are_authorized_and_persisted() {
    let host = host();
    let admin = generate(&host);
    let mut env = deploy(&host, &[admin]);

    assert_eq!(SentinelPool::initialize(&mut env, admin, 100, 10, 2), Ok(()));
    assert_eq!(SentinelPool::set_threshold(&mut env, admin, 4), Ok(()));

    assert_eq!(SentinelPool::threshold(&env), 4);
}

#[test]
fn unauthorized_threshold_update_fails_without_state_change() {
    let host = host();
    let admin = generate(&host);
    let attacker = generate(&host);
    let mut env = deploy(&host, &[admin, attacker]);

    assert_eq!(SentinelPool::initialize(&mut env, admin, 100, 10, 2), Ok(()));
    let error = SentinelPool::set_threshold(&mut env, attacker, 5).unwrap_err();
    assert_eq!(error, Error::Unauthorized);
    assert_eq!(error.code(), 2);
    assert_eq!(SentinelPool::threshold(&env), 2);
    assert!(env.events.is_empty());
}

#[test]
fn withdrawals_respect_lock_period_and_minimums() {
    let host = host();
    let admin = generate(&host);
    let sentinel = generate(&host);
    let mut env = deploy(&host, &[admin, sentinel]);

    assert_eq!(SentinelPool::initialize(&mut env, admin, 100, 10, 2), Ok(()));
    assert_eq!(SentinelPool::stake(&mut env, sentinel, 250), Ok(()));

    assert!(SentinelPool::withdraw(&mut env, sentinel, 50).is_err());

    host.ledger().with_mut(|l| l.sequence_number = 20);
    let mut env = PoolEnv::new(host.clone(), env.storage, host.ledger().sequence());
    env.authorize(sentinel);
    assert_eq!(env.sequence, 20);
    assert_eq!(SentinelPool::withdraw(&mut env, sentinel, 100), Ok(()));
    assert_eq!(SentinelPool::balance(&env, sentinel), 150);

    assert_eq!(SentinelPool::withdraw(&mut env, sentinel, 50), Ok(()));
    assert_eq!(SentinelPool::balance(&env, sentinel), 100);
}

#[test]
fn withdrawal_during_lock_period_raises_explicit_error() {
    let host = host();
    let admin = generate(&host);
    let sentinel = generate(&host);
    let mut env = deploy(&host, &[admin, sentinel]);

    assert_eq!(SentinelPool::initialize(&mut env, admin, 100, 10, 2), Ok(()));
    assert_eq!(SentinelPool::stake(&mut env, sentinel, 250), Ok(()));
    let error = SentinelPool::withdraw(&mut env, sentinel, 50).unwrap_err();
    assert_eq!(error, Error::LockPeriodActive);
    assert_eq!(error.code(), 4);
}

#[test]
fn slashing_records_the_penalty_and_rejects_replay() {
    let host = host();
    let admin = generate(&host);
    let sentinel = generate(&host);
    let reason = symbol("fraudulent_submission");
    let mut env = deploy(&host, &[admin, sentinel]);

    assert_eq!(SentinelPool::initialize(&mut env, admin, 100, 10, 2), Ok(()));
    assert_eq!(SentinelPool::stake(&mut env, sentinel, 250), Ok(()));
    assert_eq!(SentinelPool::slash(&mut env, admin, sentinel, 50, reason), Ok(()));

    assert_eq!(SentinelPool::balance(&env, sentinel), 200);
    assert!(SentinelPool::slash(&mut env, admin, sentinel, 10, reason).is_err());
}

#[test]
fn a_call_asks_its_actor_for_authorization_after_its_arguments() {
    let host = host();
    let admin = generate(&host);
    let sentinel = generate(&host);
    let reason = symbol("fraud");

    let initialize = |min_stake: i128, threshold: u32| Call::Initialize {
        admin,
        min_stake,
        lock_period: 10,
        threshold,
    };
    assert_eq!(initialize(100, 2).authorizer(), Ok(admin));
    assert_eq!(initialize(0, 0).authorizer(), Err(Error::InvalidStake));
    assert_eq!(initialize(100, 0).authorizer(), Err(Error::InvalidThreshold));

    assert_eq!(Call::Stake { sentinel, amount: 1 }.authorizer(), Ok(sentinel));
    assert_eq!(Call::Stake { sentinel, amount: 0 }.authorizer(), Err(Error::InvalidStake));
    assert_eq!(Call::Withdraw { sentinel, amount: 1 }.authorizer(), Ok(sentinel));
    assert_eq!(Call::Withdraw { sentinel, amount: -1 }.authorizer(), Err(Error::InvalidStake));
    assert_eq!(Call::Slash { admin, sentinel, amount: 1, reason }.authorizer(), Ok(admin));
    assert_eq!(
        Call::Slash { admin, sentinel, amount: 0, reason }.authorizer(),
        Err(Error::InvalidStake)
    );
    assert_eq!(Call::SetThreshold { admin, threshold: 1 }.authorizer(), Ok(admin));
    assert_eq!(
        Call::SetThreshold { admin, threshold: 0 }.authorizer(),
        Err(Error::InvalidThreshold)
    );
    assert_eq!(Call::SetMinStake { admin, min_stake: 1 }.authorizer(), Ok(admin));
    assert_eq!(Call::SetMinStake { admin, min_stake: 0 }.authorizer(), Err(Error::InvalidStake));
}

#[test]
fn generated_addresses_are_told_apart() {
    let host = host();
    let first = generate(&host);
    let second = generate(&host);
    let mut env = deploy(&host, &[first, second]);

    assert!(first != second);
    assert_eq!(SentinelPool::stake(&mut env, first, 7), Ok(()));
    assert_eq!(SentinelPool::balance(&env, first), 7);
    assert_eq!(SentinelPool::balance(&env, second), 0);
}
