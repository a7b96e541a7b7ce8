# quasar_dice

A commit-reveal dice game for Solana, with every decision of the program
verified in Verus.

- `src/` holds the program's logic over plain account data: the introspection
  parse of the Instructions sysvar, the odds (roll and payout), and one handler
  per instruction, each with a contract that pins down its result and the
  accounts it changes. `src/laws.rs` and `src/sysvar_layout.rs` prove the
  properties that span instructions: one bet per table, a claimed table cannot
  be closed, a timed-out bet is refunded in full, ties go to the house, the
  payout falls as the guess rises and withholds the edge, and introspection
  reads back exactly the instruction that precedes the executing one.
- SHA-256 comes from the `sha2` crate behind one trusted wrapper
  (`src/hash.rs`).
- `app/` is the Quasar program around the library: account parsing and
  constraints, the Clock sysvar read, and the system-program transfers that
  the handlers ask for.
- `tests/` plays the game's scenarios over a small lamport ledger and checks
  each part on chosen inputs.
