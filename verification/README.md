# sentinel-pool

A Soroban contract that manages a set of sentinels: staking, governance thresholds,
withdrawals and fraud slashing. The rules are written in Verus and proved.

- `src/` is the verified library. `model.rs` states what the pool is and what each call
  does to it, `pool.rs` implements the calls against that statement, `laws.rs` proves what
  holds of the pool as a whole. `env.rs` and `tables.rs` hold the data, `types.rs` and
  `bytes.rs` the plain values, and `host.rs` what is taken on trust of the Soroban host.
- `app/` is the contract around the library: storage, the ledger's sequence number,
  authorization and events.
- `tests/` runs the library on a real Soroban host.

## Rules

A call acts for one address, which must have authorized it, unless its arguments alone
refuse it. A refused call changes nothing.

- `initialize` sets the administrator, the minimum stake, the lock period and the
  threshold. It works once.
- `stake` adds to a sentinel's stake and starts its lock period. The whole stake must
  reach the minimum.
- `withdraw` takes from a sentinel's stake once the lock period is over, and leaves at
  least the minimum.
- `slash` takes from a sentinel's stake at any time, once for each reason, and leaves at
  least the minimum.
- `set_threshold`, `set_min_stake` and `slash` are the administrator's. While no
  administrator is set, anybody may call them.
