use vstd::prelude::*;

use crate::deed::{refreshed, sum_shares, Deed, FULL_PERCENTAGE};
use crate::emergency::{budget_debited, budget_restored, claim_window_open, Emergency};

verus! {

/// Conservation: a well-formed deed never allocates more shares than its cap.
/// Every mutating operation requires and re-establishes `wf`, so the bound
/// holds after any sequence of `set_inheritor` and `unset_inheritor` calls,
/// and an attempt to break it is rejected with the state left unchanged.
pub proof fn lemma_shares_conserved(d: Deed)
    requires
        d.wf(),
    ensures
        sum_shares(d.inheritance@) <= d.total_shares,
{
}

/// Idempotent keep-alive: two successive liveness refreshes at non-decreasing
/// host times land `last_seen` on each time in turn, never let it decrease,
/// and touch nothing else of the deed.
pub proof fn lemma_keep_alive_twice(d0: Deed, d1: Deed, d2: Deed, now1: u64, now2: u64)
    requires
        refreshed(d0, d1, now1),
        refreshed(d1, d2, now2),
        now1 <= now2,
    ensures
        d1.last_seen == now1,
        d2.last_seen == now2,
        d1.last_seen <= d2.last_seen,
        d2 == (Deed { last_seen: now2, ..d0 }),
{
}

/// Emergency two-phase gating. The claim phase opens exactly one full
/// withdrawal period after the deed's latest sign of life; a claim stamped in
/// the open window stands against the deed as it was; and the redeem phase
/// opens exactly when the emergency's own withdrawal period has elapsed since
/// the claim, never before.
pub proof fn lemma_emergency_two_phase(
    d: Deed,
    e0: Emergency,
    e1: Emergency,
    t_claim: u64,
    now: u64,
)
    requires
        e0.claimed_timestamp is None,
        claim_window_open(d, t_claim),
        e1 == (Emergency { claimed_timestamp: Some(t_claim), ..e0 }),
    ensures
        t_claim >= d.last_seen + d.withdrawal_period,
        e1.claim_valid(d),
        e1.redeem_mature(now) <==> now >= t_claim + e1.withdrawal_period,
        now < t_claim + e1.withdrawal_period ==> !e1.redeem_mature(now),
{
}

/// Revival aborts the emergency: once the owner refreshes their liveness at or
/// after the claim, and the deed keeps a positive withdrawal period, no claim
/// taken earlier can stand against the revived deed, so the redeem is turned
/// away for want of a valid claim, at every later time.
pub proof fn lemma_revival_aborts_redeem(
    d1: Deed,
    d2: Deed,
    e: Emergency,
    t_claim: u64,
    t_revive: u64,
)
    requires
        e.claimed_timestamp == Some(t_claim),
        refreshed(d1, d2, t_revive),
        t_revive >= t_claim,
        d1.withdrawal_period >= 1,
    ensures
        !e.claim_valid(d2),
{
}

/// Percentage budget round-trip: designating an emergency for some percentage
/// and then deleting it before any claim leaves the deed's remaining budget
/// exactly where it started, and the deletion is never turned away for the
/// budget's sake.
pub proof fn lemma_budget_round_trip(
    d0: Deed,
    d1: Deed,
    d2: Deed,
    e: Emergency,
    now1: u64,
    now2: u64,
)
    requires
        d0.wf(),
        e.percentage <= d0.left_to_be_shared,
        budget_debited(d0, d1, e.percentage, now1),
        budget_restored(d1, d2, e.percentage, now2),
    ensures
        d1.left_to_be_shared + e.percentage <= FULL_PERCENTAGE,
        d2.left_to_be_shared == d0.left_to_be_shared,
        d2 == (Deed { last_seen: now2, ..d0 }),
{
}

} // verus!
