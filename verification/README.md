# trv1

Chain logic of the TRv1 validator, written in Verus with its contracts proved:

- `fee_market` — the EIP-1559 base-fee rule and transaction pricing (`laws.rs` holds the
  properties that hold for every input: bounds, direction and size of each adjustment,
  monotonicity).
- `bft` — Tendermint-style consensus: the stake-weighted validator set, proposer rotation,
  vote tallies, double-sign evidence, step timeouts and the round state machine
  (`laws.rs`, `tally_laws.rs`, `accountability.rs`: a single quorum value per tally, conflicting
  quorums need more than a third of the stake to vote twice, locks need a polka, one vote per
  step and round, tallies hold only validators' votes).
- `bft_adapter`, `producer`, `service` — the node's driver of the engine, block production from
  the pending-transaction queue, and the consensus loop's decisions.
- `accounts` — tiered account storage: rent expiry, the cold-storage record format and paths,
  archival and revival, the archive index, Merkle proofs, the hot cache and the storage adapter.
- `net` — the consensus network's messages and framing, peer bookkeeping and block sync.
- `staking` — passive-stake rewards and locks, slashing and jail rules.
- `cli` — the values the command line accepts and lists. The command-line front end itself
  (argument definitions and parsing with clap, wallet signers, RPC calls) is not part of this
  crate.

`src/` is the verified library. `app/` is the ordinary Rust around it: wire encodings (serde,
bincode, borsh), the TCP transport, the threads and loops that do I/O, cold-storage files,
floating-point ratios and display texts. `tests/` exercises the library.
