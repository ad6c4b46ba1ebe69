# lunar_nft

A verified model of a CosmWasm NFT sale contract. The owner configures the
sale, names admins, and admins or the owner whitelist buyers. The owner mints
numbered tokens for free; a whitelisted buyer mints by paying exactly the price,
which is forwarded to the owner. Each mint asks a CW721 contract to create the
token `LUNAR_NFT.<n>` with metadata and image paths derived from `<n>`.

Layout:

- `src/` — the library, verified with Verus:
  - `keyorder.rs`: the byte order in which stored keys are listed, and a key comparison;
  - `store.rs`: a keyed store kept in that order, with its map view;
  - `decimal.rs`: decimal rendering of token numbers;
  - `state.rs`, `msg.rs`, `error.rs`: the records, requests, answers and refusals;
  - `contract.rs`: the contract's data, a specification of every operation on
    its view, and the operations proved to follow it;
  - `laws.rs`: properties across operations, proved on the specification.
- `app/` — the CosmWasm entry points: they load the records from chain
  storage, call the library, store the result and build the chain messages.
- `tests/` — tests of the library.
