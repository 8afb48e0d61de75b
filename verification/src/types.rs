//! The plain values the pool works on: identities, errors, storage keys and events.

use vstd::prelude::*;

use crate::bytes::{halves, high_half, low_half};

verus! {

/// Why the pool refuses a call.
#[derive(Clone, Copy, Debug, PartialEq, Eq, Structural)]
pub enum Error {
    InvalidStake,
    Unauthorized,
    StakeBelowMinimum,
    LockPeriodActive,
    InvalidThreshold,
    InvalidAmount,
    FraudProofAlreadyUsed,
    InsufficientBalance,
}

impl Error {
    /// The number under which callers of the contract see the error.
    pub open spec fn spec_code(self) -> u32 {
        match self {
            Error::InvalidStake => 1,
            Error::Unauthorized => 2,
            Error::StakeBelowMinimum => 3,
            Error::LockPeriodActive => 4,
            Error::InvalidThreshold => 5,
            Error::InvalidAmount => 6,
            Error::FraudProofAlreadyUsed => 7,
            Error::InsufficientBalance => 8,
        }
    }

    /// Returns the number under which callers of the contract see the error.
    pub fn code(self) -> (code: u32)
        ensures
            code == self.spec_code(),
    {
        match self {
            Error::InvalidStake => 1,
            Error::Unauthorized => 2,
            Error::StakeBelowMinimum => 3,
            Error::LockPeriodActive => 4,
            Error::InvalidThreshold => 5,
            Error::InvalidAmount => 6,
            Error::FraudProofAlreadyUsed => 7,
            Error::InsufficientBalance => 8,
        }
    }
}

/// The entries of the pool's instance storage.
#[derive(Clone, Copy, Debug, PartialEq, Eq, Structural)]
pub enum DataKey {
    Admin,
    MinStake,
    LockPeriod,
    Threshold,
    Stakes,
    StakedAt,
    SlashProofs,
}

/// An address as a tuple of integers, the form under which tables are keyed.
pub type AddressKey = (u32, u128, u128);

/// A sentinel and the reason it was slashed for, as a tuple of integers.
pub type ProofKey = (u32, u128, u128, u128, u128);

/// The identity of an account or of a contract: a 32-byte payload, held as its two
/// big-endian halves.
#[derive(Clone, Copy, Debug, PartialEq, Eq, Structural)]
pub enum Address {
    Account { hi: u128, lo: u128 },
    Contract { hi: u128, lo: u128 },
}

impl Address {
    /// The account with a public key.
    pub open spec fn of_account(public_key: Seq<u8>) -> Address {
        Address::Account { hi: high_half(public_key), lo: low_half(public_key) }
    }

    /// The contract with a hash.
    pub open spec fn of_contract(hash: Seq<u8>) -> Address {
        Address::Contract { hi: high_half(hash), lo: low_half(hash) }
    }

    /// Returns the account with a public key.
    pub fn account(public_key: [u8; 32]) -> (address: Address)
        ensures
            address == Address::of_account(public_key@),
    {
        let (hi, lo) = halves(&public_key);
        Address::Account { hi, lo }
    }

    /// Returns the contract with a hash.
    pub fn contract(hash: [u8; 32]) -> (address: Address)
        ensures
            address == Address::of_contract(hash@),
    {
        let (hi, lo) = halves(&hash);
        Address::Contract { hi, lo }
    }

    /// The integers that stand for the address.
    pub open spec fn spec_key(self) -> AddressKey {
        match self {
            Address::Account { hi, lo } => (0, hi, lo),
            Address::Contract { hi, lo } => (1, hi, lo),
        }
    }

    /// Returns the integers that stand for the address.
    pub fn key(self) -> (key: AddressKey)
        ensures
            key == self.spec_key(),
    {
        match self {
            Address::Account { hi, lo } => (0, hi, lo),
            Address::Contract { hi, lo } => (1, hi, lo),
        }
    }
}

/// A symbol of up to 32 characters: its bytes, padded with zeros, held as two
/// big-endian halves.
#[derive(Clone, Copy, Debug, PartialEq, Eq, Structural)]
pub struct Symbol {
    pub hi: u128,
    pub lo: u128,
}

impl Symbol {
    /// The symbol with a text.
    pub open spec fn of_text(text: Seq<u8>) -> Symbol {
        Symbol { hi: high_half(text), lo: low_half(text) }
    }

    /// Returns the symbol with a text, padded with zeros.
    pub fn from_text(text: [u8; 32]) -> (symbol: Symbol)
        ensures
            symbol == Symbol::of_text(text@),
    {
        let (hi, lo) = halves(&text);
        Symbol { hi, lo }
    }
}

/// The integers that stand for a sentinel and a reason.
pub open spec fn spec_proof_key(sentinel: Address, reason: Symbol) -> ProofKey {
    let key = sentinel.spec_key();
    (key.0, key.1, key.2, reason.hi, reason.lo)
}

/// Returns the integers that stand for a sentinel and a reason.
pub fn proof_key(sentinel: Address, reason: Symbol) -> (key: ProofKey)
    ensures
        key == spec_proof_key(sentinel, reason),
{
    let key = sentinel.key();
    (key.0, key.1, key.2, reason.hi, reason.lo)
}

/// A sentinel added to its stake.
#[derive(Clone, Copy, Debug, PartialEq, Eq, Structural)]
pub struct StakedEvent {
    pub sentinel: Address,
    pub amount: i128,
    pub total: i128,
}

/// A sentinel took part of its stake back.
#[derive(Clone, Copy, Debug, PartialEq, Eq, Structural)]
pub struct WithdrawnEvent {
    pub sentinel: Address,
    pub amount: i128,
    pub remaining: i128,
}

/// The administrator set the governance threshold.
#[derive(Clone, Copy, Debug, PartialEq, Eq, Structural)]
pub struct ThresholdUpdatedEvent {
    pub actor: Address,
    pub threshold: u32,
}

/// The administrator took part of a sentinel's stake away.
#[derive(Clone, Copy, Debug, PartialEq, Eq, Structural)]
pub struct SlashedEvent {
    pub sentinel: Address,
    pub reason: Symbol,
    pub amount: i128,
}

/// What a call announces when it succeeds.
#[derive(Clone, Copy, Debug, PartialEq, Eq, Structural)]
pub enum Event {
    Staked(StakedEvent),
    Withdrawn(WithdrawnEvent),
    ThresholdUpdated(ThresholdUpdatedEvent),
    Slashed(SlashedEvent),
}

} // verus!
