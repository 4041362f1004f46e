# inf1_jup_interface

Sanctum's INF pool as an AMM of the Jupiter router, with its rules verified by
[Verus](https://github.com/verus-lang/verus).

- `src/` is the verified library. It decides what is asked of the pool and what the
  router is told:
  - `init.rs`: the setup of the pool out of its LST state list account.
  - `update.rs`, `update_laws.rs`: the steps of an update, and what holds of every update.
  - `pool_laws.rs`, `setup_laws.rs`: what an update and the setup do to the pool.
  - `quote.rs`, `calc.rs`: when a quote is refused for a stake pool that is behind the
    current epoch, and what a quote says.
  - `trade.rs`, `account_meta.rs`: the instruction of a swap and its accounts.
  - `spl_lsts.rs`: the stake pools behind the SPL liquid staking tokens.
  - `amm.rs`: the pool as the router sees it, and the accounts to fetch.
- `app/` implements the router's `Amm` trait with the library. The pool comes in as an
  implementation of the trait `Pool`, which lists what `inf1_std` provides. `inf1_std` is
  not in the crate registry, so the implementation for it is a macro, `inf_std_pool!`,
  for a crate that has it.
- `tests/` runs the library on concrete values.

Setup and update are runs of steps. The library says what is to be done next, the
adapter does it on the pool and replies with what came of it.

Rates are exact fractions in the library. The adapter turns them into decimals.

## Dependencies

The library calls `solana-instruction` and `solana-pubkey`; `anyhow`, `rust_decimal` and
`jupiter-amm-interface` are for `app/`. `solana-account-decoder` is called by nothing
here. `jupiter-amm-interface` 0.6.1 takes any version of it from 2 on, of which cargo picks
the newest. That one needs a newer compiler than Verus comes with, and none of the crates is
then built. With 4.1.2 all of them are built but `jupiter-amm-interface` itself, which calls
`UiAccount::decode`, a method that 4.1.2 does not have. `app/` needs a tree of crates where
the two agree.
