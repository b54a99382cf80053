# potlock

The logic of the PotLock public-goods funding contracts on NEAR, written in
Verus and proved against its contracts: fee arithmetic, input validation, and
the state transitions of the campaigns, donation, lists, pot, pot factory and
pot deployer contracts.

## Layout

- `src/` — the verified library.
  - `fees`, `env`, `collections`, `text`, `util`, `provider`: fee formulas,
    the call environment and storage prices, set and map models, strings as
    character sequences, paging, and provider IDs.
  - `campaigns`, `donation`, `lists`, `pot`, `pot_factory`, `pot_deployer`:
    one module per contract. Each entry point takes the call environment
    (`CallContext`) and returns either an error, with the state unchanged, or
    the new state together with what the host must do next (transfers,
    cross-contract queries, deployments) as plain values.
- `app/` — the host side: reads the NEAR environment, parses JSON messages,
  measures serialized sizes, logs events and turns the library's decisions
  into promises.
- `tests/` — tests of the library on concrete values.

## Collections

The contracts' state is held in the ordered sets and maps of
`src/collections.rs` (`IdSet`, `AccountSet`, `IdMap`, `AccountMap`): new
keys go to the end of the iteration order, and a removed key is replaced by
the last one. near-sdk's persistent collections read and write contract
storage through the NEAR host functions, which exist only while a contract
runs on a NEAR node; the library must also run (and be tested) outside one,
so it models that state in memory, with a well-formedness invariant and a
view for each type, and the host persists it.

## Storage

Storage sizes are inputs: the library charges or refunds the cost of the
bytes the host reports (`storage_cost`, `freed_bytes`, the per-record costs
of a refund batch). Where a record's cost is needed before the record is
written, the host computes it from the record's fields.
