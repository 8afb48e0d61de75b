//! The pool's tables: each is a map of the Soroban host, seen as a mathematical map.

use vstd::prelude::*;

use crate::host::{
    amounts_convert, amounts_get, amounts_in, amounts_new, amounts_set, flags_convert, flags_get,
    flags_in, flags_new, flags_set, lookup, sequences_convert, sequences_get, sequences_in,
    sequences_new, sequences_set,
};
use crate::types::{proof_key, spec_proof_key, Address, AddressKey, ProofKey, Symbol};

verus! {

/// A map keyed by addresses, from one keyed by the integers that stand for them.
pub open spec fn by_address<V>(entries: Map<AddressKey, V>) -> Map<Address, V> {
    Map::new(|a: Address| entries.contains_key(a.spec_key()), |a: Address| entries[a.spec_key()])
}

/// A map keyed by sentinel and reason, from one keyed by the integers that stand for
/// them.
pub open spec fn by_proof<V>(entries: Map<ProofKey, V>) -> Map<(Address, Symbol), V> {
    Map::new(
        |p: (Address, Symbol)| entries.contains_key(spec_proof_key(p.0, p.1)),
        |p: (Address, Symbol)| entries[spec_proof_key(p.0, p.1)],
    )
}

/// The stake of each sentinel that has one.
pub struct StakeTable {
    map: soroban_sdk::Map<AddressKey, i128>,
}

impl View for StakeTable {
    type V = Map<Address, i128>;

    closed spec fn view(&self) -> Map<Address, i128> {
        by_address(amounts_in(self.map))
    }
}

impl StakeTable {
    #[verifier::type_invariant]
    spec fn converts(&self) -> bool {
        amounts_convert(self.map)
    }

    /// An empty table in the host.
    pub fn new(host: &soroban_sdk::Env) -> (table: StakeTable)
        ensures
            table@ == Map::<Address, i128>::empty(),
    {
        let table = StakeTable { map: amounts_new(host) };
        assert(table@ =~= Map::<Address, i128>::empty());
        table
    }

    /// The sentinel's entry.
    pub fn get(&self, sentinel: Address) -> (stake: Option<i128>)
        ensures
            stake == lookup(self@, sentinel),
    {
        proof {
            use_type_invariant(self);
        }
        amounts_get(&self.map, sentinel.key())
    }

    /// The table with the sentinel's entry replaced.
    pub fn with(self, sentinel: Address, stake: i128) -> (table: StakeTable)
        ensures
            table@ == self@.insert(sentinel, stake),
    {
        proof {
            use_type_invariant(&self);
        }
        let ghost before = self@;
        let mut map = self.map;
        amounts_set(&mut map, sentinel.key(), stake);
        let table = StakeTable { map };
        assert(table@ =~= before.insert(sentinel, stake));
        table
    }
}

/// The ledger sequence at which each sentinel last staked.
pub struct StakedAtTable {
    map: soroban_sdk::Map<AddressKey, u64>,
}

impl View for StakedAtTable {
    type V = Map<Address, u64>;

    closed spec fn view(&self) -> Map<Address, u64> {
        by_address(sequences_in(self.map))
    }
}

impl StakedAtTable {
    #[verifier::type_invariant]
    spec fn converts(&self) -> bool {
        sequences_convert(self.map)
    }

    /// An empty table in the host.
    pub fn new(host: &soroban_sdk::Env) -> (table: StakedAtTable)
        ensures
            table@ == Map::<Address, u64>::empty(),
    {
        let table = StakedAtTable { map: sequences_new(host) };
        assert(table@ =~= Map::<Address, u64>::empty());
        table
    }

    /// The sentinel's entry.
    pub fn get(&self, sentinel: Address) -> (sequence: Option<u64>)
        ensures
            sequence == lookup(self@, sentinel),
    {
        proof {
            use_type_invariant(self);
        }
        sequences_get(&self.map, sentinel.key())
    }

    /// The table with the sentinel's entry replaced.
    pub fn with(self, sentinel: Address, sequence: u64) -> (table: StakedAtTable)
        ensures
            table@ == self@.insert(sentinel, sequence),
    {
        proof {
            use_type_invariant(&self);
        }
        let ghost before = self@;
        let mut map = self.map;
        sequences_set(&mut map, sentinel.key(), sequence);
        let table = StakedAtTable { map };
        assert(table@ =~= before.insert(sentinel, sequence));
        table
    }
}

/// The fraud proofs that have been used: for which reason which sentinel was slashed.
pub struct ProofTable {
    map: soroban_sdk::Map<ProofKey, bool>,
}

impl View for ProofTable {
    type V = Map<(Address, Symbol), bool>;

    closed spec fn view(&self) -> Map<(Address, Symbol), bool> {
        by_proof(flags_in(self.map))
    }
}

impl ProofTable {
    #[verifier::type_invariant]
    spec fn converts(&self) -> bool {
        flags_convert(self.map)
    }

    /// An empty table in the host.
    pub fn new(host: &soroban_sdk::Env) -> (table: ProofTable)
        ensures
            table@ == Map::<(Address, Symbol), bool>::empty(),
    {
        let table = ProofTable { map: flags_new(host) };
        assert(table@ =~= Map::<(Address, Symbol), bool>::empty());
        table
    }

    /// The entry of a sentinel and a reason.
    pub fn get(&self, sentinel: Address, reason: Symbol) -> (used: Option<bool>)
        ensures
            used == lookup(self@, (sentinel, reason)),
    {
        proof {
            use_type_invariant(self);
        }
        flags_get(&self.map, proof_key(sentinel, reason))
    }

    /// The table with the entry of a sentinel and a reason replaced.
    pub fn with(self, sentinel: Address, reason: Symbol, used: bool) -> (table: ProofTable)
        ensures
            table@ == self@.insert((sentinel, reason), used),
    {
        proof {
            use_type_invariant(&self);
        }
        let ghost before = self@;
        let mut map = self.map;
        flags_set(&mut map, proof_key(sentinel, reason), used);
        let table = ProofTable { map };
        assert(table@ =~= before.insert((sentinel, reason), used));
        table
    }
}

} // verus!
