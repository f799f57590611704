//! Plain values that stand for ledger identifiers.

use vstd::prelude::*;

verus! {

/// Thirty-two bytes, as two big-endian halves: a code hash, a deal id, a
/// transaction id.
#[derive(Clone, Copy, Debug, PartialEq, Eq, Structural)]
pub struct Bytes32 {
    pub hi: u128,
    pub lo: u128,
}

/// The identity of an account or of a contract.
#[derive(Clone, Copy, Debug, PartialEq, Eq, Structural)]
pub struct Address {
    /// `true` for a contract, `false` for an account.
    pub contract: bool,
    /// The account's public key, or the contract's id.
    pub id: Bytes32,
}

impl View for Bytes32 {
    type V = Bytes32;

    open spec fn view(&self) -> Bytes32 {
        *self
    }
}

impl View for Address {
    type V = Address;

    open spec fn view(&self) -> Address {
        *self
    }
}

} // verus!
