# FROST Substrate

A verified library for the FROST (Finality-Reliant Optimised State Transition) protocol on
Substrate chains: cross-chain state verification that rests on GRANDPA finality.

- `src/` is the library. Every function in it is verified with Verus, except for the wrappers in
  `trusted.rs`, each of which makes one call into an outside crate and whose contracts are taken on
  trust.
  - `finality/`: authority sets, votes, finality status, the verification clients and the finality
    predicate.
  - `observer/`: watch targets, the matching of events, and how a finality notification is handled.
  - `pallet/`: the registry of watch targets, and the record of transitions, proofs and messages.
  - `proofs/`: the generation of Merkle and signature proofs.
  - `routing.rs`, `verification/`: routers, and the registry of proof verifiers.
  - `trusted.rs`: the calls into outside crates.
- `app/` holds the services around the library: chain clients, clocks, locks, async traits, and
  everything that takes floating point.
- `tests/` runs the library together with the outside crates.

The library does no input or output. Where a decision rests on an answer of the chain, of a peer or
of a clock, the function that decides takes the answer as an argument; `observer::handling` and
`finality::predicate` say in which order the answers are asked for.
