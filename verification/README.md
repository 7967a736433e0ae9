# workflow

Evidence records and gates for operator-driven workflows: task plans, workflow
proposals and runs, the routing of a run's next action, and the manual-result
ladder (command descriptor, command review, manual result, result review,
reconciliation readiness, reconciliation gate), with external attestations,
evidence-chain inspection, audit packets and an operator console over them.

Every record is evidence only. No function here executes a command, calls a
tool, or verifies anything outside the records it is given; the records say so
in their authority flags, and the contracts state it.

## Layout

- `src/` — the library, verified with Verus. Each gate evaluates an ordered list
  of predicates and its contract states the resulting record exactly: which
  predicates pass, the status and decision they lead to, and the ids and hashes
  copied into the record. Record ids are BLAKE3 digests of fixed preimages.
  `src/outside.rs` holds the calls into `blake3` and `chrono`.
- `tests/` — tests of the library on concrete values.
- `app/` — the serde layer: serialisable copies of the records with conversions
  in both directions, and entry points that supply the JSON text whose digests
  the library compares.
