//! Admin gates shared by the contracts.

use vstd::prelude::*;

use crate::host::{Action, Env};
use crate::value::Address;

verus! {

/// Why a pause or an unpause was refused.
#[derive(Clone, Copy, Debug, PartialEq, Eq, Structural)]
pub enum PausableError {
    NotAuthorized,
}

/// What an admin gate answers: the caller has to be the admin.
pub open spec fn admin_gate<E>(admin: Address, caller: Address, on_unauthorized: E) -> Result<
    (),
    E,
> {
    if caller == admin {
        Ok(())
    } else {
        Err(on_unauthorized)
    }
}

/// Ask for the caller's authorisation, and let only the admin through.
pub fn require_admin_permission<E>(
    env: &mut Env,
    admin: &Address,
    caller: &Address,
    on_unauthorized: E,
) -> (r: Result<(), E>)
    ensures
        r == admin_gate(*admin, *caller, on_unauthorized),
        final(env).after(*old(env), seq![Action::RequireAuth(*caller)]),
{
    env.require_auth(caller);
    if *caller != *admin {
        return Err(on_unauthorized);
    }
    Ok(())
}

/// Gate of an entry point that takes no caller: the stored admin has to have
/// authorised the call.
pub fn require_admin_auth(env: &mut Env, admin: &Address)
    ensures
        final(env).after(*old(env), seq![Action::RequireAuth(*admin)]),
{
    env.require_auth(admin);
}

/// The admin gets through, and nobody else does, who is answered with the error
/// that was handed in.
pub proof fn law_gate<E>(admin: Address, caller: Address, on_unauthorized: E)
    ensures
        caller == admin <==> admin_gate(admin, caller, on_unauthorized) is Ok,
        caller != admin ==> admin_gate(admin, caller, on_unauthorized) == Err::<(), E>(
            on_unauthorized,
        ),
{
}

} // verus!
