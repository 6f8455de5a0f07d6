# coinflip

A streak-based coinflip game contract for Soroban, with its game logic
verified in Verus.

- `src/payout.rs`: streak multipliers and the net payout formula, with the
  payout laws (monotonicity, positivity, fee deduction, linearity, overflow
  bounds).
- `src/game.rs`: error codes, sides, phases, game state, configuration,
  statistics and storage keys, over plain values (addresses as strkeys).
- `src/store.rs`: the contract's persistent entries as one value, with a
  per-player game table.
- `src/randomness.rs`: the contract's random contribution, the SHA-256 of the
  big-endian ledger sequence, computed by the Soroban host.
- `src/contract.rs`: `initialize`, the guards of a new game, and the
  bookkeeping after its wager transfer, with the laws that relate them.
- `app/lib.rs`: the Soroban contract itself: host types, persistent storage,
  authorisation, ledger reads and the token transfer.
