# lending_program

A lending pool for Solana whose logic is verified with Verus.

- `src/` is the verified library. Each instruction of the program is a type holding
  the account data it reads and writes, and a function whose contract states its answer
  and the accounts after it (`instructions/`). The account data types are in `state/`,
  the errors in `error.rs`. Decimal arithmetic goes through `rust_decimal`
  (`decimal.rs`), Pyth price lookups through `pyth-solana-receiver-sdk` (`oracle.rs`),
  Switchboard feed parsing through `switchboard-on-demand` (`feed.rs`), and address text
  through `anchor-lang` (`keys.rs`). `laws.rs` proves properties that span instructions.
- `app/` is the Anchor program around it: the account constraints, the clock, the token
  transfers, the copies of the account types with Anchor's derives, and the entry points.
- `tests/` runs the library on concrete accounts.
