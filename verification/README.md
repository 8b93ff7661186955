# aquachain

Verified state machines for nine CosmWasm water-management contracts:
a citizen science registry, a water well initiative, water well donations,
a cross-platform exchange, a water credit marketplace, a community bounty
board, a local DAO, sustainable action rewards and a utility water footprint
registry.

## Layout

- `src/` is the library, proved with Verus.
  - `chain.rs`: the message context (sender, funds, block time), responses
    (attributes and bank transfers) and the `follows` predicate that ties a
    handler's result to its specification.
  - `table.rs`, `keyed.rs`: the stores, keyed by id in ascending order or by
    string and pair keys, each with a map view.
  - `text.rs`, `order.rs`: trimming, decimal rendering and parsing, byte order
    of strings and sorting.
  - `digest.rs`, `json.rs`: SHA-256 content hashes (through `sha2` and `hex`)
    and what the contracts read of a `serde_json::Value`.
  - one module per contract (`citizen`, `initiative`, `donation`, `exchange`,
    `marketplace`, `bounty`, `dao` with `actions`, `sustainable`, `utility`):
    records, errors, an abstract view of the storage, one specification per
    message, the handlers and queries proved against them, and the laws of
    the contract as public proof functions.
- `tests/` exercises the library on concrete scenarios.
- `app/` holds the CosmWasm entry points: each contract keeps its
  instantiation and the messages that succeeded in chain storage, rebuilds the
  library state from them, and converts between chain types and the
  library's values.
