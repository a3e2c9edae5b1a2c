# solana_lessons

Verified instruction logic of a set of Solana programs: a constant-product
market maker (`amm`), a token escrow (`escrow`), a lamport vault (`vault`)
and the small programs of a Solana course (`lessons`).

`src/` is the library. Accounts, sysvar readings and the answers of
cross-program calls are plain values there; every decision an instruction
takes on them (parsing its data, checking its accounts, what moves where)
carries a contract proved by Verus. The market maker's prices come from the
constant-product curve crate, which `app/` calls; the library takes the
curve's answers as arguments and checks them against the user's limits.
`bytes`, `address`, `account` and `program_error` hold the shared pieces: little-endian fields, addresses and
program-derived address search, the account model and the token layouts.

`app/` is the runtime side, outside Verus: it copies the runtime's accounts
into the library's model, reads the clock, the rent and the instructions
sysvar, and performs the transfers, account creations, mints and burns the
library's plans name.

`tests/` runs the library with the outside crates linked.
