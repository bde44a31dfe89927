# p_fundraiser

A crowdfunding program for the Solana runtime, built on pinocchio. A maker
opens a fundraiser for a token mint (`Initialize`), each contributor gets a
record (`CreateContributor`) and contributes tokens to the vault
(`Contribute`), the maker collects the vault (`Checker`) and a contributor can
be refunded, closing the record (`Refund`).

Layout:

- `src/` is the library, verified with Verus. It checks accounts and
  instruction data, reads and writes the fundraiser and contributor state that
  lies in account data (`state/`), derives the fundraiser's program address
  (`pda.rs`) and names, for each instruction, the cross-program invocations to
  make (`instructions/`). Each instruction is split into the steps between
  which the runtime acts.
- `app/` is the entrypoint: it turns the runtime's accounts into
  `p_fundraiser::Account` values, calls the library step by step, makes the
  invocations, reads the rent and clock sysvars, and writes balances and data
  back.
- `tests/` runs the library on the instruction flows and on its error cases.
