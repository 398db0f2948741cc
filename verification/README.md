# zara_staking

The rules of a token staking pool, verified with Verus.

Owners stake ZARA for the lock period of a tier, earn simple interest, claim it, and take their
stake out again: with its rewards once the lock is over, or without them while the pool is paused.

- `src/` is the library. Each instruction is a decision over plain values: the accounts, the reading
  of the clock, and what became of the token movements that it asked for. `src/ledger.rs` and
  `src/laws.rs` state what every instruction keeps and what holds between instructions.
- `app/` is the on-chain program. It decodes accounts, reads the clock, moves tokens and stores what
  the rules decide.
- `tests/` runs the library on concrete values.

The `admit_` functions take any accounts: they decide on an instruction only where its accounts
belong together, and say so where an address or the rewards cannot be computed.

An instruction that moves tokens takes two calls or more. The first decides, and gives the movement
that it waits for; the next takes the outcome of the movement, and updates the accounts. A call that
returns an error leaves the accounts as they were.

The one thing taken on trust is the derivation of addresses (`try_find_program_address` in
`src/address.rs`): what it finds depends on the seeds and the program alone.
