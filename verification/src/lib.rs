//! The state machines behind the Shelterflex contracts: rent wallets, rent
//! schedules, rent-to-own deals, staking pools, vesting and upgrade governance,
//! with a checker for crate module trees beside them.
//!
//! Every contract is a plain value that holds what the contract keeps in
//! storage. An entry point takes that value and the [`host::Env`] of the call,
//! updates the value, and appends to the log of the `Env`, in order, what it
//! asks of the ledger: authorisations, token transfers, events, new code.

pub mod access_control;
pub mod arith;
pub mod host;
pub mod module_tree_check;
pub mod mvp_staking_accounts;
pub mod mvp_staking_laws;
pub mod mvp_staking_pool;
pub mod pool_model;
pub mod pool_model_laws;
pub mod reentrancy_guard;
pub mod rent_schedule;
pub mod rent_schedule_laws;
pub mod rent_to_own;
pub mod rent_to_own_laws;
pub mod rent_wallet;
pub mod sums;
pub mod table;
pub mod upgrade_governance;
pub mod upgrade_laws;
pub mod value;
pub mod vesting_laws;
pub mod vesting_schedule;
