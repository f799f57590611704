# Shelterflex contracts

The rules of a set of Soroban contracts, written in Rust and proved with Verus.

- `src/` is the library. Each contract is a plain value that holds what the
  contract keeps in storage. An entry point updates the value and appends to a
  log what it asks of the ledger: authorisations, token transfers, events, new
  code. Where an entry point can abort, a function whose name starts with
  `check_` tells beforehand, with the message.
- `app/` runs the rules on the ledger: it loads and saves storage, performs the
  logged requests, and walks a crate directory for the module-tree check.
- `tests/` runs the library on concrete values.

The contracts are `mvp_staking_pool`, `rent_wallet`, `rent_schedule`,
`rent_to_own` and `vesting_schedule`; `upgrade_governance`, `access_control` and
`reentrancy_guard` are what they share. `pool_model` is a model of a pool with
rewards, and `module_tree_check` finds source files that no `mod` reaches.

Statements that span several functions are public proof functions whose names
start with `law_`. Two functions from outside are taken at their word:
`soroban_sdk::Error::from_contract_error` and `String::push`.
