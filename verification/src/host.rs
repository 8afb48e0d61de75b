//! What the pool has from the Soroban host: the collection that holds its tables,
//! `soroban_sdk::Map`.
//!
//! A map lives in the host. Verus sees nothing of it, so what it holds has a name for
//! each of the three types of map in use, and each method the tables call has a wrapper
//! that says over that name what the method does. A map's pairs are host values that
//! `get` converts back to the map's value type, and `get` panics on one that does not
//! convert; a second name stands for every value converting. A map made by `new` and
//! filled by `set` holds only values that convert.
//!
//! The host meters every call and ends the whole invocation when its limits are
//! reached. Nothing is said of an invocation that ends so.

use vstd::prelude::*;

use crate::types::{AddressKey, ProofKey};

verus! {

/// `soroban_sdk::Env`, the handle of the Soroban host.
#[verifier::external_type_specification]
#[verifier::external_body]
pub struct ExEnv(soroban_sdk::Env);

/// `soroban_sdk::Map`, an ordered dictionary of host values.
#[verifier::external_type_specification]
#[verifier::external_body]
#[verifier::reject_recursive_types(K)]
#[verifier::reject_recursive_types(V)]
pub struct ExSdkMap<K, V>(soroban_sdk::Map<K, V>);

/// What a map from addresses to amounts holds.
pub uninterp spec fn amounts_in(map: soroban_sdk::Map<AddressKey, i128>) -> Map<AddressKey, i128>;

/// Whether every value in a map from addresses to amounts converts to an `i128`.
pub uninterp spec fn amounts_convert(map: soroban_sdk::Map<AddressKey, i128>) -> bool;

/// What a map from addresses to ledger sequence numbers holds.
pub uninterp spec fn sequences_in(map: soroban_sdk::Map<AddressKey, u64>) -> Map<AddressKey, u64>;

/// Whether every value in a map from addresses to sequence numbers converts to a `u64`.
pub uninterp spec fn sequences_convert(map: soroban_sdk::Map<AddressKey, u64>) -> bool;

/// What a map from slashing proofs to flags holds.
pub uninterp spec fn flags_in(map: soroban_sdk::Map<ProofKey, bool>) -> Map<ProofKey, bool>;

/// Whether every value in a map from slashing proofs to flags converts to a `bool`.
pub uninterp spec fn flags_convert(map: soroban_sdk::Map<ProofKey, bool>) -> bool;

/// The value under a key, if there is one.
pub open spec fn lookup<K, V>(entries: Map<K, V>, key: K) -> Option<V> {
    if entries.contains_key(key) {
        Some(entries[key])
    } else {
        None
    }
}

/// `soroban_sdk::Map::new`: the map is empty.
#[verifier::external_body]
pub(crate) fn amounts_new(env: &soroban_sdk::Env) -> (fresh: soroban_sdk::Map<AddressKey, i128>)
    ensures
        (amounts_in(fresh) == Map::<AddressKey, i128>::empty()),
        amounts_convert(fresh),
{
    soroban_sdk::Map::new(env)
}

/// `soroban_sdk::Map::get`: the value under the key, or `None` where there is none.
#[verifier::external_body]
pub(crate) fn amounts_get(
    map: &soroban_sdk::Map<AddressKey, i128>,
    key: AddressKey,
) -> (value: Option<i128>)
    requires
        amounts_convert(*map),
    ensures
        value == lookup(amounts_in(*map), key),
{
    map.get(key)
}

/// `soroban_sdk::Map::set`: puts the value under the key, in place of one that is
/// there, and leaves the other pairs as they are.
#[verifier::external_body]
pub(crate) fn amounts_set(
    map: &mut soroban_sdk::Map<AddressKey, i128>,
    key: AddressKey,
    value: i128,
)
    requires
        amounts_convert(*old(map)),
    ensures
        amounts_in(*final(map)) == amounts_in(*old(map)).insert(key, value),
        amounts_convert(*final(map)),
{
    map.set(key, value)
}

/// `soroban_sdk::Map::new`: the map is empty.
#[verifier::external_body]
pub(crate) fn sequences_new(env: &soroban_sdk::Env) -> (fresh: soroban_sdk::Map<AddressKey, u64>)
    ensures
        (sequences_in(fresh) == Map::<AddressKey, u64>::empty()),
        sequences_convert(fresh),
{
    soroban_sdk::Map::new(env)
}

/// `soroban_sdk::Map::get`: the value under the key, or `None` where there is none.
#[verifier::external_body]
pub(crate) fn sequences_get(
    map: &soroban_sdk::Map<AddressKey, u64>,
    key: AddressKey,
) -> (value: Option<u64>)
    requires
        sequences_convert(*map),
    ensures
        value == lookup(sequences_in(*map), key),
{
    map.get(key)
}

/// `soroban_sdk::Map::set`: puts the value under the key, in place of one that is
/// there, and leaves the other pairs as they are.
#[verifier::external_body]
pub(crate) fn sequences_set(
    map: &mut soroban_sdk::Map<AddressKey, u64>,
    key: AddressKey,
    value: u64,
)
    requires
        sequences_convert(*old(map)),
    ensures
        sequences_in(*final(map)) == sequences_in(*old(map)).insert(key, value),
        sequences_convert(*final(map)),
{
    map.set(key, value)
}

/// `soroban_sdk::Map::new`: the map is empty.
#[verifier::external_body]
pub(crate) fn flags_new(env: &soroban_sdk::Env) -> (fresh: soroban_sdk::Map<ProofKey, bool>)
    ensures
        (flags_in(fresh) == Map::<ProofKey, bool>::empty()),
        flags_convert(fresh),
{
    soroban_sdk::Map::new(env)
}

/// `soroban_sdk::Map::get`: the value under the key, or `None` where there is none.
#[verifier::external_body]
pub(crate) fn flags_get(
    map: &soroban_sdk::Map<ProofKey, bool>,
    key: ProofKey,
) -> (value: Option<bool>)
    requires
        flags_convert(*map),
    ensures
        value == lookup(flags_in(*map), key),
{
    map.get(key)
}

/// `soroban_sdk::Map::set`: puts the value under the key, in place of one that is
/// there, and leaves the other pairs as they are.
#[verifier::external_body]
pub(crate) fn flags_set(map: &mut soroban_sdk::Map<ProofKey, bool>, key: ProofKey, value: bool)
    requires
        flags_convert(*old(map)),
    ensures
        flags_in(*final(map)) == flags_in(*old(map)).insert(key, value),
        flags_convert(*final(map)),
{
    map.set(key, value)
}

} // verus!
