# cw_asset

Descriptors of fungible assets for CosmWasm contracts — a native SDK coin named
by its denomination, or a CW20 token named by its contract address — with their
text form (`native:{denom}`, `cw20:{contract_addr}`), their storage keys, their
validation and their balance queries.

- `src/` is the library, verified with Verus: every public function states what
  it returns, and the laws (the text form and the storage key read back as the
  same asset; checking a checked asset gives it back) are proved there.
- `app/` holds what depends on the chain and on derives of other crates: the
  serde/schema derives, `Display`, the cw-storage-plus key traits, the chain's
  address validator (`&dyn Api`) and the querier.
- `tests/` runs the library on concrete values.
