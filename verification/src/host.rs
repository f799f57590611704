//! What an entry point is given by the ledger, and what it asks of it.

use vstd::prelude::*;

use crate::value::{Address, Bytes32};

verus! {

/// One value inside an event.
pub enum Value {
    /// A symbol that the contract writes itself.
    Symbol(&'static str),
    /// A symbol that the caller handed in.
    CallerSymbol(String),
    Text(String),
    Address(Address),
    OptionalAddress(Option<Address>),
    Bytes(Bytes32),
    U32(u32),
    U64(u64),
    I128(i128),
}

/// The topics of an event, in order.
pub enum Topics {
    Two(Value, Value),
    Three(Value, Value, Value),
}

/// The payload of an event. `One` is the bare value; the longer ones are
/// tuples.
pub enum Data {
    Unit,
    One(Value),
    Two(Value, Value),
    Three(Value, Value, Value),
    Four(Value, Value, Value, Value),
    Five(Value, Value, Value, Value, Value),
}

pub struct Event {
    pub topics: Topics,
    pub data: Data,
}

/// One request of an entry point to the ledger.
pub enum Action {
    /// The call fails unless this address has authorised it.
    RequireAuth(Address),
    /// Move `amount` of the token contract `token`.
    Transfer { token: Address, from: Address, to: Address, amount: i128 },
    /// Publish an event.
    Publish(Event),
    /// Replace the code of the running contract.
    UpdateWasm(Bytes32),
}

/// The ledger as one call sees it.
pub struct Env {
    /// Timestamp of the ledger, in seconds.
    pub now: u64,
    /// Address of the running contract.
    pub this: Address,
    /// Requests made so far, oldest first.
    pub log: Vec<Action>,
}

impl Env {
    /// `self` is `pre` after the requests `actions` and nothing else.
    pub open spec fn after(self, pre: Env, actions: Seq<Action>) -> bool {
        &&& self.now == pre.now
        &&& self.this == pre.this
        &&& self.log@ =~= pre.log@ + actions
    }

    /// The ledger at the start of a call, with an empty log.
    pub fn new(now: u64, this: Address) -> (env: Env)
        ensures
            env.now == now,
            env.this == this,
            env.log@ == Seq::<Action>::empty(),
    {
        Env { now, this, log: Vec::new() }
    }

    /// The timestamp of the ledger.
    pub fn timestamp(&self) -> (t: u64)
        ensures
            t == self.now,
    {
        self.now
    }

    /// Ask that `who` has authorised the call.
    pub fn require_auth(&mut self, who: &Address)
        ensures
            final(self).after(*old(self), seq![Action::RequireAuth(*who)]),
    {
        self.log.push(Action::RequireAuth(*who));
    }

    /// Ask for a token transfer.
    pub fn transfer(&mut self, token: &Address, from: &Address, to: &Address, amount: i128)
        ensures
            final(self).after(
                *old(self),
                seq![Action::Transfer { token: *token, from: *from, to: *to, amount }],
            ),
    {
        self.log.push(Action::Transfer { token: *token, from: *from, to: *to, amount });
    }

    /// Ask that an event be published.
    pub fn publish(&mut self, event: Event)
        ensures
            final(self).after(*old(self), seq![Action::Publish(event)]),
    {
        self.log.push(Action::Publish(event));
    }

    /// Ask that the running contract's code be replaced.
    pub fn update_current_contract_wasm(&mut self, hash: &Bytes32)
        ensures
            final(self).after(*old(self), seq![Action::UpdateWasm(*hash)]),
    {
        self.log.push(Action::UpdateWasm(*hash));
    }
}

/// What was asked of the ledger stands in the log, in order, behind what had been
/// asked before, with nothing between and nothing behind; time and contract stay.
pub proof fn law_log_is_appended(env: Env, pre: Env, actions: Seq<Action>)
    ensures
        env.after(pre, actions) <==> env.now == pre.now && env.this == pre.this && env.log@
            == pre.log@ + actions,
{
}

} // verus!
