//! What holds of vesting at every time and in every state.

use vstd::prelude::*;

use crate::value::Address;
use crate::vesting_schedule::{
    ContractError, VestingSchedule, VestingScheduleContract, VestingView,
};

verus! {

/// The elapsed share of the total fits in the numbers of the contract. It does
/// for every amount below 2^63.
pub open spec fn in_range(schedule: VestingSchedule, now: u64) -> bool {
    (now - schedule.start_time) * schedule.total_amount <= i128::MAX
}

/// Between the cliff and the end, what has vested is the elapsed share of the
/// total, to the last whole unit: as much of it as the elapsed time covers, and
/// not one unit less. At the cliff it is the same share of half the total.
pub proof fn law_vested_is_the_elapsed_share(schedule: VestingSchedule, now: u64)
    requires
        schedule.valid(),
    ensures
        ({
            let elapsed = now - schedule.start_time;
            let duration = schedule.end_time - schedule.start_time;
            let total = schedule.total_amount as int;
            let vested = schedule.vested(now);
            &&& now < schedule.cliff_time ==> vested == 0
            &&& schedule.end_time <= now ==> vested == total
            &&& schedule.cliff_time < now < schedule.end_time ==> vested * duration <= elapsed
                * total < (vested + 1) * duration
            &&& schedule.cliff_time == now < schedule.end_time ==> (2 * vested) * duration
                <= elapsed * total < (2 * vested + 2) * duration
        }),
{
    let elapsed = now - schedule.start_time;
    let duration = schedule.end_time - schedule.start_time;
    let total = schedule.total_amount as int;
    if schedule.cliff_time <= now < schedule.end_time {
        let share = elapsed * total;
        assert(0 <= share) by (nonlinear_arith)
            requires
                share == elapsed * total,
                0 <= elapsed,
                0 < total,
        ;
        let q = share / duration;
        assert(q * duration <= share < (q + 1) * duration && 0 <= q < total) by (nonlinear_arith)
            requires
                0 <= share,
                0 < duration,
                0 <= elapsed < duration,
                0 < total,
                share == elapsed * total,
                q == share / duration,
        ;
        assert(schedule.line(now) == q);
        if now == schedule.cliff_time {
            let v = schedule.vested(now);
            assert((2 * v) * duration <= q * duration && (q + 1) * duration <= (2 * v + 2)
                * duration) by (nonlinear_arith)
                requires
                    0 < duration,
                    2 * v <= q <= 2 * v + 1,
            ;
        }
    }
}

/// Whatever a schedule says, nothing has vested before its cliff, all of it has
/// from the end on, and in between nothing of one without a duration.
pub proof fn law_vested_outside_the_line(schedule: VestingSchedule, now: u64)
    ensures
        now < schedule.cliff_time ==> schedule.vested(now) == 0,
        schedule.cliff_time <= now && schedule.end_time <= now ==> schedule.vested(now)
            == schedule.total_amount,
        schedule.cliff_time <= now < schedule.end_time <= schedule.start_time ==> schedule.vested(
            now,
        ) == 0,
        now < schedule.cliff_time || schedule.end_time <= now || schedule.end_time
            <= schedule.start_time ==> schedule.vested_abort(now) is None,
        schedule.cliff_time <= now < schedule.start_time < schedule.end_time
            ==> schedule.vested_abort(now) == Some("attempt to subtract with overflow"),
{
}

/// The contract as callers see it is what is stored.
pub proof fn law_view(contract: VestingScheduleContract)
    ensures
        contract@.contract_version == contract.contract_version,
        contract@.admin == contract.admin,
        contract@.paused == contract.paused,
        contract@.token == contract.token,
        contract@.schedules == contract.schedules@,
{
}

/// A vested amount can be worked out at every time, unless the elapsed share is
/// out of range.
pub proof fn law_vested_amount_is_found(schedule: VestingSchedule, now: u64)
    requires
        schedule.valid(),
    ensures
        in_range(schedule, now) ==> schedule.vested_abort(now) is None,
        now < schedule.cliff_time || schedule.end_time <= now ==> schedule.vested_abort(now)
            is None,
        schedule.cliff_time <= now < schedule.end_time && !in_range(schedule, now)
            ==> schedule.vested_abort(now) == Some("attempt to multiply with overflow"),
{
    let elapsed = now - schedule.start_time;
    let total = schedule.total_amount as int;
    if schedule.cliff_time <= now {
        assert(0 <= elapsed * total) by (nonlinear_arith)
            requires
                0 <= elapsed,
                0 < total,
        ;
    }
}

/// On a running contract with a token, a claim on a schedule that was not
/// revoked goes through exactly if more has vested than was claimed, however
/// much was claimed before; otherwise there is nothing to claim.
pub proof fn law_claims_go_through(contract: VestingView, beneficiary: Address, now: u64)
    requires
        contract.paused != Some(true),
        contract.token is Some,
        contract.schedules.dom().contains(beneficiary),
        contract.schedules[beneficiary].valid(),
        !contract.schedules[beneficiary].revoked,
        in_range(contract.schedules[beneficiary], now),
    ensures
        ({
            let s = contract.schedules[beneficiary];
            let elapsed = now - s.start_time;
            let duration = s.end_time - s.start_time;
            let abort = contract.claim_abort(beneficiary, now);
            &&& abort is None <==> s.vested(now) > s.claimed_amount
            &&& s.vested(now) <= s.claimed_amount ==> abort == Some("nothing to claim")
            &&& now < s.cliff_time ==> abort is Some
            &&& s.end_time <= now ==> (abort is None <==> s.claimed_amount < s.total_amount)
            &&& s.cliff_time < now < s.end_time ==> (abort is None <==> (s.claimed_amount + 1)
                * duration <= elapsed * s.total_amount)
        }),
{
    let s = contract.schedules[beneficiary];
    let elapsed = now - s.start_time;
    let duration = s.end_time - s.start_time;
    law_vested_amount_is_found(s, now);
    law_vested_is_the_elapsed_share(s, now);
    crate::vesting_schedule::law_vesting_curve(s, now);
    if s.cliff_time < now < s.end_time {
        let v = s.vested(now);
        let c = s.claimed_amount as int;
        let share = elapsed * s.total_amount;
        assert(v > c ==> (c + 1) * duration <= v * duration) by (nonlinear_arith)
            requires
                0 < duration,
        ;
        assert(v <= c ==> (v + 1) * duration <= (c + 1) * duration) by (nonlinear_arith)
            requires
                0 < duration,
        ;
    }
}

/// A claim goes through only on a running contract with a token, for a schedule
/// that is there and was not revoked, and each refusal has its own message.
pub proof fn law_claim_refusals(contract: VestingView, beneficiary: Address, now: u64)
    ensures
        ({
            let found = contract.schedules.dom().contains(beneficiary);
            let s = contract.schedules[beneficiary];
            let abort = contract.claim_abort(beneficiary, now);
            let open = contract.paused != Some(true) && found && !s.revoked;
            let due = s.vested(now) > s.claimed_amount;
            &&& contract.paused == Some(true) ==> abort == Some("contract is paused")
            &&& contract.paused != Some(true) && !found ==> abort == Some(
                "vesting schedule not found",
            )
            &&& contract.paused != Some(true) && found && s.revoked ==> abort == Some(
                "schedule revoked",
            )
            &&& open && s.vested_abort(now) is Some ==> abort == s.vested_abort(now)
            &&& open && s.vested_abort(now) is None && !due ==> abort == Some("nothing to claim")
            &&& open && s.vested_abort(now) is None && due && contract.token is None ==> abort
                == Some("token not set")
            &&& abort is None <==> open && s.vested_abort(now) is None && due && contract.token
                is Some
        }),
{
}

/// The claim that goes through pays what has vested and was not claimed, once:
/// the claimed amount becomes the vested amount, and all else of the schedule
/// stays.
pub proof fn law_claim_pays_the_difference(schedule: VestingSchedule, now: u64)
    requires
        schedule.valid(),
        schedule.vested(now) >= schedule.claimed_amount,
    ensures
        schedule.claimable(now) == schedule.vested(now) - schedule.claimed_amount,
        schedule.with_claim(now).claimed_amount == schedule.claimed_amount + schedule.claimable(
            now,
        ),
        schedule.with_claim(now).claimed_amount == schedule.vested(now),
        schedule.with_claim(now).beneficiary == schedule.beneficiary,
        schedule.with_claim(now).total_amount == schedule.total_amount,
        schedule.with_claim(now).start_time == schedule.start_time,
        schedule.with_claim(now).end_time == schedule.end_time,
        schedule.with_claim(now).cliff_time == schedule.cliff_time,
        schedule.with_claim(now).revocable == schedule.revocable,
        schedule.with_claim(now).revoked == schedule.revoked,
{
    crate::vesting_schedule::law_vesting_curve(schedule, now);
}

/// The schedule after claims at all these times, in their order; a time at which
/// there is nothing to claim changes nothing.
pub open spec fn after_claims(schedule: VestingSchedule, times: Seq<u64>) -> VestingSchedule
    decreases times.len(),
{
    if times.len() == 0 {
        schedule
    } else {
        let before = after_claims(schedule, times.drop_last());
        if before.claimable(times.last()) > 0 {
            before.with_claim(times.last())
        } else {
            before
        }
    }
}

/// Claims add up to what has vested at the last of them, however they are
/// spread: those whose last is at the end or later, to the total.
pub proof fn law_claims_add_up(schedule: VestingSchedule, times: Seq<u64>)
    requires
        schedule.valid(),
        schedule.claimed_amount == 0,
        times.len() > 0,
        forall|i: int, j: int| 0 <= i < j < times.len() ==> times[i] <= times[j],
    ensures
        after_claims(schedule, times).claimed_amount == schedule.vested(times.last()),
        times.last() >= schedule.end_time ==> after_claims(schedule, times).claimed_amount
            == schedule.total_amount,
        after_claims(schedule, times).valid(),
        forall|t: u64| #[trigger] after_claims(schedule, times).vested(t) == schedule.vested(t),
    decreases times.len(),
{
    let first = times.drop_last();
    let last = times.last();
    let before = after_claims(schedule, first);
    if first.len() > 0 {
        law_claims_add_up(schedule, first);
        assert(first.last() == times[times.len() - 2]);
        crate::vesting_schedule::law_vesting_is_monotone(schedule, first.last(), last);
    }
    crate::vesting_schedule::law_vesting_curve(schedule, last);
    assert(before.vested(last) == schedule.vested(last));
    law_claim_pays_the_difference(before, last);
    let after = after_claims(schedule, times);
    assert forall|t: u64| #[trigger] after.vested(t) == schedule.vested(t) by {
        assert(before.vested(t) == schedule.vested(t));
        assert(before.with_claim(last).vested(t) == before.vested(t));
    }
}

/// What can be claimed is what a claim would pay: the vested amount less what
/// was claimed, and nothing once revoked.
pub proof fn law_claimable_is_what_a_claim_pays(
    contract: VestingView,
    beneficiary: Address,
    now: u64,
)
    requires
        contract.schedules.dom().contains(beneficiary),
        contract.schedules[beneficiary].valid(),
        in_range(contract.schedules[beneficiary], now),
    ensures
        ({
            let s = contract.schedules[beneficiary];
            &&& contract.claimable_abort(beneficiary, now) is None
            &&& s.revoked ==> contract.claimable(beneficiary, now) == 0
            &&& !s.revoked ==> contract.claimable(beneficiary, now) == s.vested(now)
                - s.claimed_amount
            &&& contract.paused != Some(true) && contract.token is Some ==> (contract.claim_abort(
                beneficiary,
                now,
            ) is None <==> contract.claimable(beneficiary, now) > 0)
        }),
{
    law_vested_amount_is_found(contract.schedules[beneficiary], now);
    crate::vesting_schedule::law_vesting_curve(contract.schedules[beneficiary], now);
}

/// Looking up a schedule, or what can be claimed of it, needs only that it is
/// there; a revoked one has nothing to work out.
pub proof fn law_lookups(contract: VestingView, beneficiary: Address, now: u64)
    ensures
        ({
            let found = contract.schedules.dom().contains(beneficiary);
            let s = contract.schedules[beneficiary];
            &&& contract.found_abort(beneficiary) is None <==> found
            &&& !found ==> contract.found_abort(beneficiary) == Some("vesting schedule not found")
            &&& !found ==> contract.claimable_abort(beneficiary, now) == Some(
                "vesting schedule not found",
            )
            &&& found && s.revoked ==> contract.claimable_abort(beneficiary, now) is None
            &&& found && !s.revoked ==> contract.claimable_abort(beneficiary, now)
                == s.vested_abort(now)
        }),
{
}

/// A schedule can be made exactly on a running contract with an admin, for a
/// beneficiary who has none, with an amount, a duration, and a cliff within it;
/// each refusal has its own message.
pub proof fn law_schedules_are_made(
    contract: VestingView,
    beneficiary: Address,
    total_amount: i128,
    start: u64,
    end: u64,
    cliff: u64,
)
    ensures
        ({
            let abort = contract.create_abort(beneficiary, total_amount, start, end, cliff);
            let open = contract.paused != Some(true) && contract.admin is Some;
            &&& abort is None <==> open && total_amount > 0 && start < end && start <= cliff <= end
                && !contract.schedules.dom().contains(beneficiary)
            &&& contract.paused == Some(true) ==> abort == Some("contract is paused")
            &&& contract.paused != Some(true) && contract.admin is None ==> abort == Some(
                "admin not set",
            )
            &&& open && total_amount <= 0 ==> abort == Some("invalid amount")
            &&& open && total_amount > 0 && start >= end ==> abort == Some(
                "invalid time parameters",
            )
            &&& open && total_amount > 0 && start < end && !(start <= cliff <= end) ==> abort
                == Some("invalid cliff time")
            &&& open && total_amount > 0 && start < end && start <= cliff <= end
                && contract.schedules.dom().contains(beneficiary) ==> abort == Some(
                "schedule already exists",
            )
        }),
{
}

/// A schedule that was let in is the one that was asked for: nothing of it is
/// claimed or revoked, it vests in full by its end and nothing before its cliff,
/// and it can be revoked exactly if that was agreed.
pub proof fn law_fresh_schedules(
    contract: VestingView,
    beneficiary: Address,
    total_amount: i128,
    start: u64,
    end: u64,
    cliff: u64,
    revocable: bool,
    now: u64,
)
    requires
        contract.create_abort(beneficiary, total_amount, start, end, cliff) is None,
    ensures
        ({
            let s = VestingSchedule::fresh(
                beneficiary,
                total_amount,
                start,
                end,
                cliff,
                revocable,
            );
            let after = contract.with_schedule(beneficiary, s);
            &&& s.beneficiary == beneficiary
            &&& s.total_amount == total_amount
            &&& s.start_time == start
            &&& s.end_time == end
            &&& s.cliff_time == cliff
            &&& s.revocable == revocable
            &&& s.claimed_amount == 0
            &&& !s.revoked
            &&& s.valid()
            &&& now >= end ==> s.claimable(now) == total_amount
            &&& now < cliff ==> s.claimable(now) == 0
            &&& after.revoke_abort(beneficiary) is None <==> revocable
        }),
{
}

/// A schedule can be revoked exactly on a running contract with an admin, if it
/// is there, is revocable and was not revoked; each refusal has its own message.
pub proof fn law_revocable_schedules_are_revoked(contract: VestingView, beneficiary: Address)
    ensures
        ({
            let abort = contract.revoke_abort(beneficiary);
            let open = contract.paused != Some(true) && contract.admin is Some;
            let found = contract.schedules.dom().contains(beneficiary);
            let s = contract.schedules[beneficiary];
            &&& abort is None <==> open && found && s.revocable && !s.revoked
            &&& contract.paused == Some(true) ==> abort == Some("contract is paused")
            &&& contract.paused != Some(true) && contract.admin is None ==> abort == Some(
                "admin not set",
            )
            &&& open && !found ==> abort == Some("vesting schedule not found")
            &&& open && found && !s.revocable ==> abort == Some("not revocable")
            &&& open && found && s.revocable && s.revoked ==> abort == Some("already revoked")
        }),
{
}

/// The contract is set up once; afterwards its admin can pause it, lift the
/// pause at any time, and hand it on while it runs.
pub proof fn law_admin_gates(contract: VestingView)
    ensures
        contract.initialize_abort() is None <==> contract.admin is None,
        contract.admin is Some ==> contract.initialize_abort() == Some("already initialized"),
        contract.admin_abort() is None <==> contract.admin is Some,
        contract.admin is None ==> contract.admin_abort() == Some("admin not set"),
        contract.entry_abort() is None <==> contract.paused != Some(true) && contract.admin is Some,
{
}

/// Writing one schedule changes the schedule of that beneficiary and nothing
/// else.
pub proof fn law_other_schedules_untouched(
    contract: VestingView,
    beneficiary: Address,
    schedule: VestingSchedule,
    other: Address,
)
    ensures
        ({
            let after = contract.with_schedule(beneficiary, schedule);
            &&& after.schedules.dom().contains(beneficiary)
            &&& after.schedules[beneficiary] == schedule
            &&& other != beneficiary ==> after.schedules.dom().contains(other)
                == contract.schedules.dom().contains(other)
            &&& other != beneficiary && contract.schedules.dom().contains(other)
                ==> after.schedules[other] == contract.schedules[other]
            &&& after.contract_version == contract.contract_version
            &&& after.admin == contract.admin
            &&& after.paused == contract.paused
            &&& after.token == contract.token
        }),
{
}

/// Errors are told apart by their numbers, one to thirteen.
pub proof fn law_errors_are_told_apart(a: ContractError, b: ContractError)
    ensures
        a.code_of() == b.code_of() ==> a == b,
        1 <= a.code_of() <= 13,
{
}

} // verus!
