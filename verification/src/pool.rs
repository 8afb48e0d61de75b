//! The calls of the sentinel pool.

use vstd::prelude::*;

use crate::env::PoolEnv;
use crate::model::{Call, EnvState};
use crate::tables::{ProofTable, StakeTable, StakedAtTable};
use crate::types::{
    Address, DataKey, Error, Event, SlashedEvent, StakedEvent, Symbol, ThresholdUpdatedEvent,
    WithdrawnEvent,
};

verus! {

/// The sentinel pool contract.
///
/// A call that changes the pool acts for one address, which must have authorized it
/// unless the arguments alone refuse the call: see [`Call::authorizer`].
pub struct SentinelPool;

impl SentinelPool {
    /// Sets the pool up under an administrator. Works once.
    pub fn initialize(
        env: &mut PoolEnv,
        admin: Address,
        min_stake: i128,
        lock_period: u64,
        threshold: u32,
    ) -> (result: Result<(), Error>)
        requires
            old(env)@.admits((Call::Initialize { admin, min_stake, lock_period, threshold })),
        ensures
            result == old(env)@.answer(
                (Call::Initialize { admin, min_stake, lock_period, threshold }),
            ),
            final(env)@ == old(env)@.after(
                (Call::Initialize { admin, min_stake, lock_period, threshold }),
            ),
    {
        if min_stake <= 0 {
            return Err(Error::InvalidStake);
        }
        if threshold == 0 {
            return Err(Error::InvalidThreshold);
        }
        if env.storage.has(DataKey::Admin) {
            return Err(Error::Unauthorized);
        }
        env.storage.admin = Some(admin);
        env.storage.min_stake = Some(min_stake);
        env.storage.lock_period = Some(lock_period);
        env.storage.threshold = Some(threshold);
        env.storage.stakes = Some(StakeTable::new(&env.host));
        env.storage.staked_at = Some(StakedAtTable::new(&env.host));
        env.storage.slash_proofs = Some(ProofTable::new(&env.host));
        Ok(())
    }

    /// Adds an amount to a sentinel's stake, and starts its lock period anew.
    pub fn stake(env: &mut PoolEnv, sentinel: Address, amount: i128) -> (result: Result<(), Error>)
        requires
            old(env)@.admits((Call::Stake { sentinel, amount })),
        ensures
            result == old(env)@.answer((Call::Stake { sentinel, amount })),
            final(env)@ == old(env)@.after((Call::Stake { sentinel, amount })),
    {
        if amount <= 0 {
            return Err(Error::InvalidStake);
        }
        let current: i128 = Self::balance(env, sentinel);
        let new_total: i128 = match current.checked_add(amount) {
            Some(total) => total,
            None => return Err(Error::InvalidStake),
        };
        if new_total < Self::min_stake(env) {
            return Err(Error::StakeBelowMinimum);
        }
        Self::set_balance(env, sentinel, new_total);

        let staked_at = match env.storage.staked_at.take() {
            Some(table) => table,
            None => StakedAtTable::new(&env.host),
        };
        env.storage.staked_at = Some(staked_at.with(sentinel, env.sequence as u64));

        env.events.push(Event::Staked(StakedEvent { sentinel, amount, total: new_total }));
        Ok(())
    }

    /// What a sentinel has staked.
    pub fn balance(env: &PoolEnv, sentinel: Address) -> (stake: i128)
        ensures
            stake == env@.storage.balance(sentinel),
    {
        match &env.storage.stakes {
            Some(table) => match table.get(sentinel) {
                Some(stake) => stake,
                None => 0,
            },
            None => 0,
        }
    }

    /// The governance threshold, or 0 where none was set.
    pub fn threshold(env: &PoolEnv) -> (threshold: u32)
        ensures
            threshold == env@.storage.threshold_or(0),
    {
        match env.storage.threshold {
            Some(threshold) => threshold,
            None => 0,
        }
    }

    /// The least stake that a sentinel may hold after a call on it.
    pub fn min_stake(env: &PoolEnv) -> (min_stake: i128)
        ensures
            min_stake == env@.storage.required_stake(),
    {
        match env.storage.min_stake {
            Some(min_stake) => min_stake,
            None => 0,
        }
    }

    /// The governance threshold, or the required one where none was set.
    pub fn quorum_threshold(env: &PoolEnv, required: u32) -> (threshold: u32)
        ensures
            threshold == env@.storage.threshold_or(required),
    {
        match env.storage.threshold {
            Some(threshold) => threshold,
            None => required,
        }
    }

    /// Sets the governance threshold.
    pub fn set_threshold(
        env: &mut PoolEnv,
        admin: Address,
        threshold: u32,
    ) -> (result: Result<(), Error>)
        requires
            old(env)@.admits((Call::SetThreshold { admin, threshold })),
        ensures
            result == old(env)@.answer((Call::SetThreshold { admin, threshold })),
            final(env)@ == old(env)@.after((Call::SetThreshold { admin, threshold })),
    {
        if threshold == 0 {
            return Err(Error::InvalidThreshold);
        }
        if !Self::governs(env, admin) {
            return Err(Error::Unauthorized);
        }
        env.storage.threshold = Some(threshold);
        env.events.push(Event::ThresholdUpdated(ThresholdUpdatedEvent { actor: admin, threshold }));
        Ok(())
    }

    /// Sets the least stake that a sentinel may hold after a call on it.
    pub fn set_min_stake(
        env: &mut PoolEnv,
        admin: Address,
        min_stake: i128,
    ) -> (result: Result<(), Error>)
        requires
            old(env)@.admits((Call::SetMinStake { admin, min_stake })),
        ensures
            result == old(env)@.answer((Call::SetMinStake { admin, min_stake })),
            final(env)@ == old(env)@.after((Call::SetMinStake { admin, min_stake })),
    {
        if min_stake <= 0 {
            return Err(Error::InvalidStake);
        }
        if !Self::governs(env, admin) {
            return Err(Error::Unauthorized);
        }
        env.storage.min_stake = Some(min_stake);
        Ok(())
    }

    /// Takes an amount out of a sentinel's stake, once its lock period is over.
    pub fn withdraw(
        env: &mut PoolEnv,
        sentinel: Address,
        amount: i128,
    ) -> (result: Result<(), Error>)
        requires
            old(env)@.admits((Call::Withdraw { sentinel, amount })),
        ensures
            result == old(env)@.answer((Call::Withdraw { sentinel, amount })),
            final(env)@ == old(env)@.after((Call::Withdraw { sentinel, amount })),
    {
        if amount <= 0 {
            return Err(Error::InvalidStake);
        }
        let current: i128 = Self::balance(env, sentinel);
        if amount > current {
            return Err(Error::InsufficientBalance);
        }
        let lock_period: u64 = match env.storage.lock_period {
            Some(lock_period) => lock_period,
            None => 0,
        };
        if lock_period > 0 {
            let last_staked: u64 = Self::last_staked(env, sentinel);
            let elapsed: u64 = (env.sequence as u64).saturating_sub(last_staked);
            if elapsed < lock_period {
                return Err(Error::LockPeriodActive);
            }
        }
        let remaining: i128 = current - amount;
        if remaining < Self::min_stake(env) {
            return Err(Error::StakeBelowMinimum);
        }
        Self::set_balance(env, sentinel, remaining);
        env.events.push(Event::Withdrawn(WithdrawnEvent { sentinel, amount, remaining }));
        Ok(())
    }

    /// Takes an amount out of a sentinel's stake as the penalty for a fraud. A reason
    /// counts once for each sentinel.
    pub fn slash(
        env: &mut PoolEnv,
        admin: Address,
        sentinel: Address,
        amount: i128,
        reason: Symbol,
    ) -> (result: Result<(), Error>)
        requires
            old(env)@.admits((Call::Slash { admin, sentinel, amount, reason })),
        ensures
            result == old(env)@.answer((Call::Slash { admin, sentinel, amount, reason })),
            final(env)@ == old(env)@.after((Call::Slash { admin, sentinel, amount, reason })),
    {
        if amount <= 0 {
            return Err(Error::InvalidStake);
        }
        if !Self::governs(env, admin) {
            return Err(Error::Unauthorized);
        }
        let used: bool = match &env.storage.slash_proofs {
            Some(table) => match table.get(sentinel, reason) {
                Some(used) => used,
                None => false,
            },
            None => false,
        };
        if used {
            return Err(Error::FraudProofAlreadyUsed);
        }
        let current: i128 = Self::balance(env, sentinel);
        if amount > current {
            return Err(Error::InsufficientBalance);
        }
        let remaining: i128 = current - amount;
        if remaining < Self::min_stake(env) {
            return Err(Error::StakeBelowMinimum);
        }
        Self::set_balance(env, sentinel, remaining);

        let proofs = match env.storage.slash_proofs.take() {
            Some(table) => table,
            None => ProofTable::new(&env.host),
        };
        env.storage.slash_proofs = Some(proofs.with(sentinel, reason, true));

        env.events.push(Event::Slashed(SlashedEvent { sentinel, reason, amount }));
        Ok(())
    }

    /// Whether an address may govern the pool: the administrator, or anybody while
    /// there is none.
    fn governs(env: &PoolEnv, address: Address) -> (governs: bool)
        ensures
            governs == env@.storage.governed_by(address),
    {
        match env.storage.admin {
            Some(admin) => admin == address,
            None => true,
        }
    }

    /// The ledger sequence of a sentinel's last stake, or 0 where it has none.
    fn last_staked(env: &PoolEnv, sentinel: Address) -> (sequence: u64)
        ensures
            sequence == env@.storage.last_staked(sentinel),
    {
        match &env.storage.staked_at {
            Some(table) => match table.get(sentinel) {
                Some(sequence) => sequence,
                None => 0,
            },
            None => 0,
        }
    }

    /// Replaces a sentinel's stake.
    fn set_balance(env: &mut PoolEnv, sentinel: Address, stake: i128)
        ensures
            final(env)@ == (EnvState {
                storage: old(env)@.storage.with_balance(sentinel, stake as int),
                ..old(env)@
            }),
    {
        let stakes = match env.storage.stakes.take() {
            Some(table) => table,
            None => StakeTable::new(&env.host),
        };
        env.storage.stakes = Some(stakes.with(sentinel, stake));
    }
}

} // verus!
