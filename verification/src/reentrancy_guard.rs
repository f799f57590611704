//! The reentrancy lock that a contract holds across an outgoing call.
//!
//! The lock is one flag in the contract's storage, the same for every user. A
//! flag that was never written reads as unlocked.

use vstd::prelude::*;

verus! {

/// The lock whose flag is `flag` is held.
pub open spec fn held(flag: Option<bool>) -> bool {
    flag == Some(true)
}

/// What taking the lock answers.
pub open spec fn enter_outcome<E>(flag: Option<bool>, on_reentry: E) -> Result<(), E> {
    if held(flag) {
        Err(on_reentry)
    } else {
        Ok(())
    }
}

/// Take the lock, or return `on_reentry` where it is already held.
pub fn enter<E>(flag: &mut Option<bool>, on_reentry: E) -> (r: Result<(), E>)
    ensures
        r == enter_outcome(*old(flag), on_reentry),
        r is Ok ==> *final(flag) == Some(true),
        r is Err ==> *final(flag) == *old(flag),
{
    if flag.unwrap_or(false) {
        return Err(on_reentry);
    }
    *flag = Some(true);
    Ok(())
}

/// Release the lock, whether or not it is held.
pub fn exit(flag: &mut Option<bool>)
    ensures
        *final(flag) == Some(false),
    opens_invariants none
    no_unwind
{
    *flag = Some(false);
}

/// A lock that is held as long as the value lives: taken on construction,
/// released when the value is dropped, on an early return too.
pub struct Scoped<'a> {
    pub flag: &'a mut Option<bool>,
}

impl<'a> Scoped<'a> {
    /// Take the lock, or return `on_reentry` where it is already held. The
    /// value holds the very flag that was handed in, and what it is in the end
    /// is what the value leaves there, last of all in `drop`.
    pub fn new<E>(flag: &'a mut Option<bool>, on_reentry: E) -> (r: Result<Self, E>)
        ensures
            r is Err <==> held(*old(flag)),
            r matches Ok(guard) ==> *guard.flag == Some(true) && *final(flag) == *final(guard.flag),
            r matches Err(e) ==> e == on_reentry && *final(flag) == *old(flag),
    {
        match enter(flag, on_reentry) {
            Ok(()) => Ok(Scoped { flag }),
            Err(e) => Err(e),
        }
    }
}

impl<'a> Drop for Scoped<'a> {
    /// Release the lock.
    fn drop(&mut self)
        ensures
            *final(self).flag == Some(false),
        opens_invariants none
        no_unwind
    {
        exit(self.flag);
    }
}

/// The lock can be taken exactly if it is not held, and a refusal is the error
/// that was handed in. Taken it is held, and released or never written it is
/// not: so what `enter` leaves refuses every further entry, until `exit`.
pub proof fn law_lock_excludes_reentry<E>(flag: Option<bool>, on_reentry: E)
    ensures
        enter_outcome(flag, on_reentry) is Ok <==> !held(flag),
        held(flag) ==> enter_outcome(flag, on_reentry) == Err::<(), E>(on_reentry),
        held(Some(true)),
        !held(Some(false)),
        !held(None),
{
}

} // verus!
