# lido

The rules of the Solido liquid-staking program and of its maintenance daemon,
written in Verus and proved against their contracts.

- `src/token.rs`: SOL and stSOL amounts; scaling by a fraction, rounded down.
- `src/pubkey.rs`: 32-byte addresses and program-derived addresses
  (the hashing is done by `solana_program`).
- `src/account_map.rs`: bounded address maps and their serialized sizes.
- `src/state.rs`: the Solido state, fee distribution, stSOL minting and the
  account checks, with the laws of fee splitting and minting.
- `src/rent.rs`: the rent-exempt minimum balance (computed by `solana_program`).
- `src/maintenance.rs`: the decisions of one maintenance step.
- `app/`: the command-line daemon: RPC reads, decoding of the on-chain
  accounts and the stake-activation computation, around the library.

`app/` reads the chain through `solana_client`'s `RpcClient`. That crate is
not in `Cargo.toml`: with it (or with `solana-rpc-client`) the dependency
graph exceeds what this build environment accepts, so `app/` does not
type-check here. `solana-sdk` and `spl-stake-pool` are declared but not used.
