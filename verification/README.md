# runtime_config

Verified pieces of a Substrate/Frontier parachain runtime's configuration.

- `src/per_million.rs`: `Permill`, a share in parts per million, capped at a whole.
- `src/evm_fees.rs`: the EVM base-fee thresholds, default elasticity and base fee,
  and the gas/weight ratio.
- `src/author.rs`: the EVM address of a block author, taken from bytes 4..24 of the
  Aura authority's sr25519 key.
- `app/lib.rs`: the impls of the Substrate traits (`FindAuthor`, `Get`) that hand
  storage and digest data to the library and convert its results.
