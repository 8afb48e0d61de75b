//! The environment of one invocation of the pool, held as plain values and tables.

use vstd::prelude::*;

use crate::model::{EnvState, PoolState};
use crate::tables::{ProofTable, StakeTable, StakedAtTable};
use crate::types::{Address, DataKey, Event};

verus! {

/// The pool's instance storage. An entry that was never written is `None`.
pub struct Instance {
    pub admin: Option<Address>,
    pub min_stake: Option<i128>,
    pub lock_period: Option<u64>,
    pub threshold: Option<u32>,
    pub stakes: Option<StakeTable>,
    pub staked_at: Option<StakedAtTable>,
    pub slash_proofs: Option<ProofTable>,
}

impl View for Instance {
    type V = PoolState;

    open spec fn view(&self) -> PoolState {
        PoolState {
            admin: self.admin,
            min_stake: self.min_stake,
            lock_period: self.lock_period,
            threshold: self.threshold,
            stakes: match self.stakes {
                Some(table) => Some(table@),
                None => None,
            },
            staked_at: match self.staked_at {
                Some(table) => Some(table@),
                None => None,
            },
            slash_proofs: match self.slash_proofs {
                Some(table) => Some(table@),
                None => None,
            },
        }
    }
}

impl Instance {
    /// Storage to which nothing was ever written.
    pub fn empty() -> (instance: Instance)
        ensures
            instance@ == PoolState::unwritten(),
    {
        Instance {
            admin: None,
            min_stake: None,
            lock_period: None,
            threshold: None,
            stakes: None,
            staked_at: None,
            slash_proofs: None,
        }
    }

    /// Whether an entry was ever written.
    pub fn has(&self, key: DataKey) -> (written: bool)
        ensures
            written == self@.has(key),
    {
        match key {
            DataKey::Admin => self.admin.is_some(),
            DataKey::MinStake => self.min_stake.is_some(),
            DataKey::LockPeriod => self.lock_period.is_some(),
            DataKey::Threshold => self.threshold.is_some(),
            DataKey::Stakes => self.stakes.is_some(),
            DataKey::StakedAt => self.staked_at.is_some(),
            DataKey::SlashProofs => self.slash_proofs.is_some(),
        }
    }
}

/// What an invocation of the pool sees of its environment and leaves in it.
pub struct PoolEnv {
    /// The host in which new tables are made.
    pub host: soroban_sdk::Env,
    /// The pool's storage.
    pub storage: Instance,
    /// The sequence number of the current ledger.
    pub sequence: u32,
    /// The addresses whose authorization of the call the host has confirmed.
    pub authorizers: Vec<Address>,
    /// What has been announced.
    pub events: Vec<Event>,
}

impl View for PoolEnv {
    type V = EnvState;

    open spec fn view(&self) -> EnvState {
        EnvState {
            host: self.host,
            storage: self.storage@,
            sequence: self.sequence,
            authorizers: self.authorizers@.to_set(),
            events: self.events@,
        }
    }
}

impl PoolEnv {
    /// The environment at a ledger sequence, with nothing authorized or announced yet.
    pub fn new(host: soroban_sdk::Env, storage: Instance, sequence: u32) -> (env: PoolEnv)
        ensures
            env.storage == storage,
            env@ == (EnvState {
                host,
                storage: storage@,
                sequence,
                authorizers: Set::empty(),
                events: Seq::empty(),
            }),
    {
        let env = PoolEnv {
            host,
            storage,
            sequence,
            authorizers: Vec::new(),
            events: Vec::new(),
        };
        assert(env@.authorizers =~= Set::empty());
        env
    }

    /// Records that the host has confirmed an address's authorization of the call.
    pub fn authorize(&mut self, address: Address)
        ensures
            final(self)@ == (EnvState {
                authorizers: old(self)@.authorizers.insert(address),
                ..old(self)@
            }),
    {
        self.authorizers.push(address);
        proof {
            let before = old(self).authorizers@;
            let after = self.authorizers@;
            assert(after.to_set() =~= before.to_set().insert(address)) by {
                assert(after[before.len() as int] == address);
                assert forall|a: Address| before.contains(a) implies after.contains(a) by {
                    let i = choose|i: int| 0 <= i < before.len() && before[i] == a;
                    assert(after[i] == a);
                }
            }
        }
    }
}

} // verus!
