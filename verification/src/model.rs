//! What the pool is, mathematically: its stored state, the calls it answers, when it
//! refuses one and what it becomes when it does not.

use vstd::prelude::*;

use crate::host::lookup;
use crate::types::{
    Address, DataKey, Error, Event, SlashedEvent, StakedEvent, Symbol, ThresholdUpdatedEvent,
    WithdrawnEvent,
};

verus! {

/// A call that may change the pool, with its arguments.
#[derive(Clone, Copy, Debug, PartialEq, Eq, Structural)]
pub enum Call {
    Initialize { admin: Address, min_stake: i128, lock_period: u64, threshold: u32 },
    Stake { sentinel: Address, amount: i128 },
    SetThreshold { admin: Address, threshold: u32 },
    SetMinStake { admin: Address, min_stake: i128 },
    Withdraw { sentinel: Address, amount: i128 },
    Slash { admin: Address, sentinel: Address, amount: i128, reason: Symbol },
}

impl Call {
    /// The error that the arguments alone call for.
    pub open spec fn argument_error(self) -> Option<Error> {
        match self {
            Call::Initialize { min_stake, threshold, .. } => if min_stake <= 0 {
                Some(Error::InvalidStake)
            } else if threshold == 0 {
                Some(Error::InvalidThreshold)
            } else {
                None
            },
            Call::SetThreshold { threshold, .. } => if threshold == 0 {
                Some(Error::InvalidThreshold)
            } else {
                None
            },
            Call::SetMinStake { min_stake, .. } => if min_stake <= 0 {
                Some(Error::InvalidStake)
            } else {
                None
            },
            Call::Stake { amount, .. } | Call::Withdraw { amount, .. } | Call::Slash {
                amount,
                ..
            } => if amount <= 0 {
                Some(Error::InvalidStake)
            } else {
                None
            },
        }
    }

    /// The address on whose behalf the call is made.
    pub open spec fn actor(self) -> Address {
        match self {
            Call::Initialize { admin, .. } => admin,
            Call::Stake { sentinel, .. } => sentinel,
            Call::SetThreshold { admin, .. } => admin,
            Call::SetMinStake { admin, .. } => admin,
            Call::Withdraw { sentinel, .. } => sentinel,
            Call::Slash { admin, .. } => admin,
        }
    }

    /// The sentinel whose stake the call is about.
    pub open spec fn subject(self) -> Option<Address> {
        match self {
            Call::Stake { sentinel, .. } => Some(sentinel),
            Call::Withdraw { sentinel, .. } => Some(sentinel),
            Call::Slash { sentinel, .. } => Some(sentinel),
            _ => None,
        }
    }

    /// The address whose authorization the call needs, or the error that the call
    /// returns before it asks for any.
    pub fn authorizer(&self) -> (asked: Result<Address, Error>)
        ensures
            match self.argument_error() {
                Some(error) => asked == Err::<Address, Error>(error),
                None => asked == Ok::<Address, Error>(self.actor()),
            },
    {
        match *self {
            Call::Initialize { admin, min_stake, threshold, .. } => if min_stake <= 0 {
                Err(Error::InvalidStake)
            } else if threshold == 0 {
                Err(Error::InvalidThreshold)
            } else {
                Ok(admin)
            },
            Call::SetThreshold { admin, threshold } => if threshold == 0 {
                Err(Error::InvalidThreshold)
            } else {
                Ok(admin)
            },
            Call::SetMinStake { admin, min_stake } => if min_stake <= 0 {
                Err(Error::InvalidStake)
            } else {
                Ok(admin)
            },
            Call::Stake { sentinel, amount } | Call::Withdraw { sentinel, amount } => if amount
                <= 0 {
                Err(Error::InvalidStake)
            } else {
                Ok(sentinel)
            },
            Call::Slash { admin, amount, .. } => if amount <= 0 {
                Err(Error::InvalidStake)
            } else {
                Ok(admin)
            },
        }
    }
}

/// The pool's instance storage. An entry that was never written is `None`.
#[verifier::ext_equal]
pub struct PoolState {
    pub admin: Option<Address>,
    pub min_stake: Option<i128>,
    pub lock_period: Option<u64>,
    pub threshold: Option<u32>,
    pub stakes: Option<Map<Address, i128>>,
    pub staked_at: Option<Map<Address, u64>>,
    pub slash_proofs: Option<Map<(Address, Symbol), bool>>,
}

impl PoolState {
    /// Storage to which nothing was ever written.
    pub open spec fn unwritten() -> PoolState {
        PoolState {
            admin: None,
            min_stake: None,
            lock_period: None,
            threshold: None,
            stakes: None,
            staked_at: None,
            slash_proofs: None,
        }
    }

    /// Whether an entry was ever written.
    pub open spec fn has(self, key: DataKey) -> bool {
        match key {
            DataKey::Admin => self.admin is Some,
            DataKey::MinStake => self.min_stake is Some,
            DataKey::LockPeriod => self.lock_period is Some,
            DataKey::Threshold => self.threshold is Some,
            DataKey::Stakes => self.stakes is Some,
            DataKey::StakedAt => self.staked_at is Some,
            DataKey::SlashProofs => self.slash_proofs is Some,
        }
    }

    /// The stakes, none where the entry was never written.
    pub open spec fn stake_table(self) -> Map<Address, i128> {
        match self.stakes {
            Some(table) => table,
            None => Map::empty(),
        }
    }

    /// The sequences of the last stakes, none where the entry was never written.
    pub open spec fn staked_at_table(self) -> Map<Address, u64> {
        match self.staked_at {
            Some(table) => table,
            None => Map::empty(),
        }
    }

    /// The used fraud proofs, none where the entry was never written.
    pub open spec fn proof_table(self) -> Map<(Address, Symbol), bool> {
        match self.slash_proofs {
            Some(table) => table,
            None => Map::empty(),
        }
    }

    /// What a sentinel has staked.
    pub open spec fn balance(self, sentinel: Address) -> i128 {
        if self.stake_table().contains_key(sentinel) {
            self.stake_table()[sentinel]
        } else {
            0
        }
    }

    /// The least stake that a sentinel may hold after a call on it.
    pub open spec fn required_stake(self) -> i128 {
        match self.min_stake {
            Some(min_stake) => min_stake,
            None => 0,
        }
    }

    /// The governance threshold, or the given one where none was set.
    pub open spec fn threshold_or(self, otherwise: u32) -> u32 {
        match self.threshold {
            Some(threshold) => threshold,
            None => otherwise,
        }
    }

    /// How many ledgers must pass between a sentinel's last stake and a withdrawal.
    pub open spec fn lock(self) -> u64 {
        match self.lock_period {
            Some(lock_period) => lock_period,
            None => 0,
        }
    }

    /// The ledger sequence of a sentinel's last stake.
    pub open spec fn last_staked(self, sentinel: Address) -> u64 {
        if self.staked_at_table().contains_key(sentinel) {
            self.staked_at_table()[sentinel]
        } else {
            0
        }
    }

    /// Whether a sentinel's stake is still locked at a ledger sequence.
    pub open spec fn locked(self, sentinel: Address, sequence: u32) -> bool {
        &&& self.lock() > 0
        &&& sequence < self.last_staked(sentinel) + self.lock()
    }

    /// Whether a sentinel has been slashed for a reason.
    pub open spec fn proof_used(self, sentinel: Address, reason: Symbol) -> bool {
        &&& self.proof_table().contains_key((sentinel, reason))
        &&& self.proof_table()[(sentinel, reason)]
    }

    /// Whether an address may govern the pool: the administrator, or anybody while
    /// there is none.
    pub open spec fn governed_by(self, address: Address) -> bool {
        match self.admin {
            Some(admin) => admin == address,
            None => true,
        }
    }

    /// The error with which taking an amount out of a sentinel's stake fails.
    pub open spec fn removal_error(self, sentinel: Address, amount: i128) -> Option<Error> {
        if amount > self.balance(sentinel) {
            Some(Error::InsufficientBalance)
        } else if self.balance(sentinel) - amount < self.required_stake() {
            Some(Error::StakeBelowMinimum)
        } else {
            None
        }
    }

    /// The error with which the pool answers a call at a ledger sequence, if it
    /// refuses it.
    pub open spec fn refusal(self, call: Call, sequence: u32) -> Option<Error> {
        if call.argument_error() is Some {
            call.argument_error()
        } else {
            match call {
                Call::Initialize { .. } => if self.admin is Some {
                    Some(Error::Unauthorized)
                } else {
                    None
                },
                Call::SetThreshold { admin, .. } | Call::SetMinStake {
                    admin,
                    ..
                } => if !self.governed_by(admin) {
                    Some(Error::Unauthorized)
                } else {
                    None
                },
                Call::Stake { sentinel, amount } => if self.balance(sentinel) + amount
                    > i128::MAX {
                    Some(Error::InvalidStake)
                } else if self.balance(sentinel) + amount < self.required_stake() {
                    Some(Error::StakeBelowMinimum)
                } else {
                    None
                },
                Call::Withdraw { sentinel, amount } => if amount > self.balance(sentinel) {
                    Some(Error::InsufficientBalance)
                } else if self.locked(sentinel, sequence) {
                    Some(Error::LockPeriodActive)
                } else {
                    self.removal_error(sentinel, amount)
                },
                Call::Slash { admin, sentinel, amount, reason } => if !self.governed_by(admin) {
                    Some(Error::Unauthorized)
                } else if self.proof_used(sentinel, reason) {
                    Some(Error::FraudProofAlreadyUsed)
                } else {
                    self.removal_error(sentinel, amount)
                },
            }
        }
    }

    /// The state with a sentinel's stake replaced.
    pub open spec fn with_balance(self, sentinel: Address, stake: int) -> PoolState {
        PoolState { stakes: Some(self.stake_table().insert(sentinel, stake as i128)), ..self }
    }

    /// The state after a call that the pool does not refuse.
    pub open spec fn after(self, call: Call, sequence: u32) -> PoolState {
        match call {
            Call::Initialize { admin, min_stake, lock_period, threshold } => PoolState {
                admin: Some(admin),
                min_stake: Some(min_stake),
                lock_period: Some(lock_period),
                threshold: Some(threshold),
                stakes: Some(Map::empty()),
                staked_at: Some(Map::empty()),
                slash_proofs: Some(Map::empty()),
            },
            Call::Stake { sentinel, amount } => PoolState {
                staked_at: Some(self.staked_at_table().insert(sentinel, sequence as u64)),
                ..self.with_balance(sentinel, self.balance(sentinel) + amount)
            },
            Call::SetThreshold { threshold, .. } => PoolState {
                threshold: Some(threshold),
                ..self
            },
            Call::SetMinStake { min_stake, .. } => PoolState {
                min_stake: Some(min_stake),
                ..self
            },
            Call::Withdraw { sentinel, amount } => self.with_balance(
                sentinel,
                self.balance(sentinel) - amount,
            ),
            Call::Slash { sentinel, amount, reason, .. } => PoolState {
                slash_proofs: Some(self.proof_table().insert((sentinel, reason), true)),
                ..self.with_balance(sentinel, self.balance(sentinel) - amount)
            },
        }
    }

    /// What a call that the pool does not refuse announces.
    pub open spec fn announced(self, call: Call) -> Seq<Event> {
        match call {
            Call::Initialize { .. } | Call::SetMinStake { .. } => Seq::empty(),
            Call::Stake { sentinel, amount } => seq![
                Event::Staked(
                    StakedEvent {
                        sentinel,
                        amount,
                        total: (self.balance(sentinel) + amount) as i128,
                    },
                ),
            ],
            Call::SetThreshold { admin, threshold } => seq![
                Event::ThresholdUpdated(ThresholdUpdatedEvent { actor: admin, threshold }),
            ],
            Call::Withdraw { sentinel, amount } => seq![
                Event::Withdrawn(
                    WithdrawnEvent {
                        sentinel,
                        amount,
                        remaining: (self.balance(sentinel) - amount) as i128,
                    },
                ),
            ],
            Call::Slash { sentinel, amount, reason, .. } => seq![
                Event::Slashed(SlashedEvent { sentinel, reason, amount }),
            ],
        }
    }

    /// The state after a call, whether the pool refuses it or not.
    pub open spec fn next(self, call: Call, sequence: u32) -> PoolState {
        if self.refusal(call, sequence) is Some {
            self
        } else {
            self.after(call, sequence)
        }
    }

    /// Whether the pool's entries hang together: what governs it is positive, no stake
    /// is negative, and a pool with an administrator has every entry.
    pub open spec fn valid(self) -> bool {
        &&& self.min_stake matches Some(min_stake) ==> min_stake > 0
        &&& self.threshold matches Some(threshold) ==> threshold > 0
        &&& forall|sentinel: Address| #[trigger] self.balance(sentinel) >= 0
        &&& self.admin is Some ==> forall|key: DataKey| #[trigger] self.has(key)
    }

    /// The state after a series of calls, each at its ledger sequence.
    pub open spec fn run(self, calls: Seq<(Call, u32)>) -> PoolState
        decreases calls.len(),
    {
        if calls.len() == 0 {
            self
        } else {
            let (call, sequence) = calls.last();
            self.run(calls.drop_last()).next(call, sequence)
        }
    }

    /// Whether none of a series of calls sets the pool up: it is set up already, or
    /// the calls that would are refused for their arguments.
    pub open spec fn no_setup_in(self, calls: Seq<(Call, u32)>) -> bool {
        ||| self.admin is Some
        ||| forall|i: int|
            0 <= i < calls.len() ==> (#[trigger] calls[i]).0 is Initialize
                ==> calls[i].0.argument_error() is Some
    }

    /// Whether a sentinel has nothing staked, or at least the minimum.
    pub open spec fn reaches_minimum(self, sentinel: Address) -> bool {
        self.balance(sentinel) == 0 || self.balance(sentinel) >= self.required_stake()
    }

    /// Whether none of a series of calls sets a higher minimum stake than the one that
    /// holds when it is made.
    pub open spec fn no_higher_minimum_in(self, calls: Seq<(Call, u32)>) -> bool
        decreases calls.len(),
    {
        calls.len() == 0 || {
            &&& self.no_higher_minimum_in(calls.drop_last())
            &&& calls.last().0 is SetMinStake ==> self.run(calls).required_stake() <= self.run(
                calls.drop_last(),
            ).required_stake()
        }
    }

    /// Whether two pools have the same settings, and the same entries of the sentinel
    /// that a call is about and of the proof that it uses.
    pub open spec fn agrees_for(self, call: Call, other: PoolState) -> bool {
        &&& self.admin == other.admin
        &&& self.min_stake == other.min_stake
        &&& self.lock_period == other.lock_period
        &&& self.threshold == other.threshold
        &&& call.subject() matches Some(sentinel) ==> {
            &&& lookup(self.stake_table(), sentinel) == lookup(other.stake_table(), sentinel)
            &&& lookup(self.staked_at_table(), sentinel) == lookup(
                other.staked_at_table(),
                sentinel,
            )
        }
        &&& call matches Call::Slash { sentinel, reason, .. } ==> lookup(
            self.proof_table(),
            (sentinel, reason),
        ) == lookup(other.proof_table(), (sentinel, reason))
    }

    /// What a series of calls announces, in order.
    pub open spec fn announced_by(self, calls: Seq<(Call, u32)>) -> Seq<Event>
        decreases calls.len(),
    {
        if calls.len() == 0 {
            Seq::empty()
        } else {
            let (call, sequence) = calls.last();
            let earlier = self.announced_by(calls.drop_last());
            let state = self.run(calls.drop_last());
            if state.refusal(call, sequence) is Some {
                earlier
            } else {
                earlier + state.announced(call)
            }
        }
    }
}

/// What an event moves into a sentinel's stake, or out of it where negative.
pub open spec fn moved(event: Event, sentinel: Address) -> int {
    match event {
        Event::Staked(staked) => if staked.sentinel == sentinel {
            staked.amount as int
        } else {
            0
        },
        Event::Withdrawn(withdrawn) => if withdrawn.sentinel == sentinel {
            -withdrawn.amount
        } else {
            0
        },
        Event::Slashed(slashed) => if slashed.sentinel == sentinel {
            -slashed.amount
        } else {
            0
        },
        Event::ThresholdUpdated(_) => 0,
    }
}

/// What a series of events moves into a sentinel's stake in all.
pub open spec fn moved_by(events: Seq<Event>, sentinel: Address) -> int
    decreases events.len(),
{
    if events.len() == 0 {
        0
    } else {
        moved_by(events.drop_last(), sentinel) + moved(events.last(), sentinel)
    }
}

/// What an invocation of the pool sees of its environment and leaves in it.
#[verifier::ext_equal]
pub struct EnvState {
    pub host: soroban_sdk::Env,
    pub storage: PoolState,
    pub sequence: u32,
    pub authorizers: Set<Address>,
    pub events: Seq<Event>,
}

impl EnvState {
    /// Whether the call may go on to where it asks for an authorization: it is
    /// refused before that, or its actor has authorized it.
    pub open spec fn admits(self, call: Call) -> bool {
        call.argument_error() is None ==> self.authorizers.contains(call.actor())
    }

    /// What the pool answers to a call.
    pub open spec fn answer(self, call: Call) -> Result<(), Error> {
        match self.storage.refusal(call, self.sequence) {
            Some(error) => Err(error),
            None => Ok(()),
        }
    }

    /// The environment after a call: a refused one leaves it as it is; another
    /// updates the storage and announces itself.
    pub open spec fn after(self, call: Call) -> EnvState {
        if self.storage.refusal(call, self.sequence) is Some {
            self
        } else {
            EnvState {
                storage: self.storage.after(call, self.sequence),
                events: self.events + self.storage.announced(call),
                ..self
            }
        }
    }
}

} // verus!
