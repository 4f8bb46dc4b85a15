# fudge_core

The decision-making core of a harness that drives Substrate relay chains and
parachains block by block in tests, written in Verus and proved against its
contracts.

- `src/inherent`: the timestamp clock registry (instances that advance by a
  fixed step per block), the timestamp inherent it files, and its error handling.
- `src/digest`: the AuRa and BABE slots that pre-runtime digests announce.
- `src/builder`: pool and commit decisions of the core builder; onboarding
  over a model of the parachain-keyed part of the relay chain's `Paras` storage
  (the writes keyed by code hash are handed back as a plan); the plan that
  enacts collected collations; collation hand-off between a parachain builder
  and the relay chain; and the companion that evolves a relay chain together
  with its parachains and decides when a run stops.
- `src/provider`: database settings of the backends and the pseudo-genesis
  storage a chain starts from (the runtime code under `:code`).
- `app/`: the process-wide clock registry, the inherent data and digest
  providers as the Substrate client traits want them, and the loop that performs
  a companion's steps.
