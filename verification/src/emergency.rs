use vstd::prelude::*;

use crate::deed::{Deed, FULL_PERCENTAGE};
use crate::error::NotarizError;
use crate::identity::Identity;
use crate::ledger::transfer_lamports;

verus! {

/// A time-locked, single-beneficiary withdrawal record tied to owner
/// inactivity. It walks two phases: created, then claimed once the owner has
/// been silent for a full withdrawal period, then redeemed once its own
/// withdrawal period has elapsed since the claim with the owner still silent.
/// The gap between the phases is the owner's window to revive the deed and
/// abort the withdrawal.
#[derive(Clone, Copy, PartialEq, Eq, Debug)]
pub struct Emergency {
    /// Back-reference to the deed; a lookup key, never an ownership claim.
    pub upstream_deed: Identity,
    /// The deed's owner at designation time.
    pub owner: Identity,
    /// The identity entitled to claim and redeem.
    pub receiver: Identity,
    /// Share of the deed's custodial balance redeemable by the receiver.
    pub percentage: u8,
    /// Inactivity window snapshotted from the deed at designation time and
    /// decoupled from later deed edits.
    pub withdrawal_period: u64,
    /// Unset until the claim phase succeeds.
    pub claimed_timestamp: Option<u64>,
}

/// The deed's owner has been inactive for at least one full withdrawal period
/// at time `now`, so the claim phase is open.
pub open spec fn claim_window_open(d: Deed, now: u64) -> bool {
    now >= d.last_seen + d.withdrawal_period
}

/// `post` is `pre` with the emergency budget debited by `pct` and the owner's
/// liveness refreshed: the deed-side effect of a successful designation.
pub open spec fn budget_debited(pre: Deed, post: Deed, pct: u8, now: u64) -> bool {
    post == (Deed {
        last_seen: now,
        left_to_be_shared: (pre.left_to_be_shared - pct) as u8,
        ..pre
    })
}

/// `post` is `pre` with `pct` given back to the emergency budget and the
/// owner's liveness refreshed: the deed-side effect of deleting a designation
/// before it is claimed.
pub open spec fn budget_restored(pre: Deed, post: Deed, pct: u8, now: u64) -> bool {
    post == (Deed {
        last_seen: now,
        left_to_be_shared: (pre.left_to_be_shared + pct) as u8,
        ..pre
    })
}

impl Emergency {
    /// Well-formedness: the promised share is a percentage.
    pub open spec fn wf(self) -> bool {
        self.percentage <= FULL_PERCENTAGE
    }

    /// A claim stands and the owner has not revived the deed since: the claim
    /// was taken no earlier than a full withdrawal period after the deed's
    /// latest sign of life.
    pub open spec fn claim_valid(self, d: Deed) -> bool {
        self.claimed_timestamp matches Some(tc) && tc >= d.last_seen + d.withdrawal_period
    }

    /// The emergency's own withdrawal period has elapsed since the claim.
    pub open spec fn redeem_mature(self, now: u64) -> bool {
        self.claimed_timestamp matches Some(tc) && now >= tc + self.withdrawal_period
    }

    /// What the receiver is owed out of a custodial balance: the promised
    /// percentage, rounded down.
    pub open spec fn payout(balance: u64, percentage: u8) -> int {
        (balance * percentage) / 100
    }

    /// Designates `receiver` as entitled to `percentage` of the deed's
    /// custodial balance once the owner goes silent. The share is carved out
    /// of the deed's remaining budget atomically, and the deed's current
    /// withdrawal period is snapshotted into the new record.
    pub fn add_emergency(
        deed: &mut Deed,
        deed_address: Identity,
        caller: Identity,
        now: u64,
        receiver: Identity,
        percentage: u8,
    ) -> (r: Result<Emergency, NotarizError>)
        requires
            old(deed).wf(),
        ensures
            final(deed).wf(),
            r is Ok <==> caller == old(deed).owner && percentage <= old(deed).left_to_be_shared,
            caller != old(deed).owner ==> r == Err::<Emergency, NotarizError>(
                NotarizError::AuthorizationError,
            ),
            caller == old(deed).owner && percentage > old(deed).left_to_be_shared ==> r == Err::<
                Emergency,
                NotarizError,
            >(NotarizError::ConservationError),
            r is Err ==> *final(deed) == *old(deed),
            r matches Ok(e) ==> budget_debited(*old(deed), *final(deed), percentage, now) && e
                == (Emergency {
                upstream_deed: deed_address,
                owner: caller,
                receiver,
                percentage,
                withdrawal_period: old(deed).withdrawal_period,
                claimed_timestamp: None,
            }) && e.wf(),
    {
        if caller != deed.owner {
            return Err(NotarizError::AuthorizationError);
        }
        if percentage > deed.left_to_be_shared {
            return Err(NotarizError::ConservationError);
        }
        deed.left_to_be_shared = deed.left_to_be_shared - percentage;
        deed.last_seen = now;
        Ok(
            Emergency {
                upstream_deed: deed_address,
                owner: caller,
                receiver,
                percentage,
                withdrawal_period: deed.withdrawal_period,
                claimed_timestamp: None,
            },
        )
    }

    /// Deletes a designation that has not been claimed, giving its percentage
    /// back to the deed's budget. Only the owner of both records may delete,
    /// and only against the deed the record points at; a designation paired
    /// with a budget it could not have come from is rejected rather than let
    /// the budget exceed the whole.
    pub fn delete_emergency(
        deed: &mut Deed,
        deed_address: Identity,
        caller: Identity,
        now: u64,
        emergency: &Emergency,
    ) -> (r: Result<(), NotarizError>)
        requires
            old(deed).wf(),
            emergency.wf(),
        ensures
            final(deed).wf(),
            r is Ok <==> caller == old(deed).owner && caller == emergency.owner
                && emergency.upstream_deed == deed_address && emergency.claimed_timestamp is None
                && emergency.percentage + old(deed).left_to_be_shared <= FULL_PERCENTAGE,
            r is Ok ==> budget_restored(*old(deed), *final(deed), emergency.percentage, now),
            r is Err ==> *final(deed) == *old(deed),
            !(caller == old(deed).owner && caller == emergency.owner) ==> r == Err::<
                (),
                NotarizError,
            >(NotarizError::AuthorizationError),
            caller == old(deed).owner && caller == emergency.owner && emergency.upstream_deed
                != deed_address ==> r == Err::<(), NotarizError>(NotarizError::NotFoundError),
            caller == old(deed).owner && caller == emergency.owner && emergency.upstream_deed
                == deed_address && emergency.claimed_timestamp is Some ==> r == Err::<
                (),
                NotarizError,
            >(NotarizError::StateError),
            caller == old(deed).owner && caller == emergency.owner && emergency.upstream_deed
                == deed_address && emergency.claimed_timestamp is None && emergency.percentage
                + old(deed).left_to_be_shared > FULL_PERCENTAGE ==> r == Err::<(), NotarizError>(
                NotarizError::ConservationError,
            ),
    {
        if caller != deed.owner || caller != emergency.owner {
            return Err(NotarizError::AuthorizationError);
        }
        if emergency.upstream_deed != deed_address {
            return Err(NotarizError::NotFoundError);
        }
        if emergency.claimed_timestamp.is_some() {
            return Err(NotarizError::StateError);
        }
        if emergency.percentage > FULL_PERCENTAGE - deed.left_to_be_shared {
            return Err(NotarizError::ConservationError);
        }
        deed.left_to_be_shared = deed.left_to_be_shared + emergency.percentage;
        deed.last_seen = now;
        Ok(())
    }

    /// First phase of the withdrawal: the receiver detects that the owner has
    /// been inactive for a full withdrawal period and stamps the claim.
    /// Claiming again would reset the countdown, so a standing claim is
    /// rejected.
    pub fn claim_emergency(
        &mut self,
        deed: &Deed,
        deed_address: Identity,
        caller: Identity,
        now: u64,
    ) -> (r: Result<(), NotarizError>)
        requires
            old(self).wf(),
        ensures
            final(self).wf(),
            r is Ok <==> caller == old(self).receiver && old(self).upstream_deed == deed_address
                && old(self).claimed_timestamp is None && claim_window_open(*deed, now),
            r is Ok ==> *final(self) == (Emergency {
                claimed_timestamp: Some(now),
                ..*old(self)
            }),
            r is Err ==> *final(self) == *old(self),
            caller != old(self).receiver ==> r == Err::<(), NotarizError>(
                NotarizError::AuthorizationError,
            ),
            caller == old(self).receiver && old(self).upstream_deed != deed_address ==> r == Err::<
                (),
                NotarizError,
            >(NotarizError::NotFoundError),
            caller == old(self).receiver && old(self).upstream_deed == deed_address && old(
                self,
            ).claimed_timestamp is Some ==> r == Err::<(), NotarizError>(NotarizError::StateError),
            caller == old(self).receiver && old(self).upstream_deed == deed_address && old(
                self,
            ).claimed_timestamp is None && !claim_window_open(*deed, now) ==> r == Err::<
                (),
                NotarizError,
            >(NotarizError::DeedWithdrawalTimeout),
    {
        if caller != self.receiver {
            return Err(NotarizError::AuthorizationError);
        }
        if self.upstream_deed != deed_address {
            return Err(NotarizError::NotFoundError);
        }
        if self.claimed_timestamp.is_some() {
            return Err(NotarizError::StateError);
        }
        if now < deed.last_seen || now - deed.last_seen < deed.withdrawal_period {
            return Err(NotarizError::DeedWithdrawalTimeout);
        }
        self.claimed_timestamp = Some(now);
        Ok(())
    }

    /// Second phase of the withdrawal: once the claim has stood untouched for
    /// the emergency's own withdrawal period, and the owner has shown no life
    /// since a full period before the claim, the promised percentage of the
    /// deed's custodial balance, rounded down, moves to the receiver. The host
    /// then retires the record; its budget is not restored, the value having
    /// been transferred.
    pub fn redeem_emergency(
        &self,
        deed: &Deed,
        deed_address: Identity,
        caller: Identity,
        now: u64,
        deed_balance: &mut u64,
        receiver_balance: &mut u64,
    ) -> (r: Result<u64, NotarizError>)
        requires
            self.wf(),
        ensures
            r is Ok <==> caller == self.receiver && self.upstream_deed == deed_address
                && self.claim_valid(*deed) && self.redeem_mature(now) && *old(receiver_balance)
                + Self::payout(*old(deed_balance), self.percentage) <= u64::MAX,
            r matches Ok(amount) ==> amount == Self::payout(*old(deed_balance), self.percentage)
                && *final(deed_balance) == *old(deed_balance) - amount && *final(receiver_balance)
                == *old(receiver_balance) + amount,
            r is Err ==> *final(deed_balance) == *old(deed_balance) && *final(receiver_balance)
                == *old(receiver_balance),
            caller != self.receiver ==> r == Err::<u64, NotarizError>(
                NotarizError::AuthorizationError,
            ),
            caller == self.receiver && self.upstream_deed != deed_address ==> r == Err::<
                u64,
                NotarizError,
            >(NotarizError::NotFoundError),
            caller == self.receiver && self.upstream_deed == deed_address && !self.claim_valid(
                *deed,
            ) ==> r == Err::<u64, NotarizError>(NotarizError::ClaimNeededToRedeem),
            caller == self.receiver && self.upstream_deed == deed_address && self.claim_valid(*deed)
                && !self.redeem_mature(now) ==> r == Err::<u64, NotarizError>(
                NotarizError::RedeemTimestampError,
            ),
            caller == self.receiver && self.upstream_deed == deed_address && self.claim_valid(*deed)
                && self.redeem_mature(now) && *old(receiver_balance) + Self::payout(
                *old(deed_balance),
                self.percentage,
            ) > u64::MAX ==> r == Err::<u64, NotarizError>(NotarizError::FundsError),
    {
        if caller != self.receiver {
            return Err(NotarizError::AuthorizationError);
        }
        if self.upstream_deed != deed_address {
            return Err(NotarizError::NotFoundError);
        }
        let tc = match self.claimed_timestamp {
            Some(tc) => tc,
            None => {
                return Err(NotarizError::ClaimNeededToRedeem);
            },
        };
        if tc < deed.last_seen || tc - deed.last_seen < deed.withdrawal_period {
            return Err(NotarizError::ClaimNeededToRedeem);
        }
        if now < tc || now - tc < self.withdrawal_period {
            return Err(NotarizError::RedeemTimestampError);
        }
        let amount = payout_of(*deed_balance, self.percentage);
        match transfer_lamports(deed_balance, receiver_balance, amount) {
            Ok(()) => Ok(amount),
            Err(e) => Err(e),
        }
    }
}

/// The receiver's cut of `balance`: `percentage` hundredths, rounded down.
/// Never more than the balance itself.
pub fn payout_of(balance: u64, percentage: u8) -> (r: u64)
    requires
        percentage <= FULL_PERCENTAGE,
    ensures
        r == Emergency::payout(balance, percentage),
        r <= balance,
{
    proof {
        lemma_payout_le_balance(balance, percentage);
    }
    let wide: u128 = (balance as u128) * (percentage as u128) / 100;
    wide as u64
}

/// A percentage of a balance, rounded down, is never more than the balance.
pub proof fn lemma_payout_le_balance(balance: u64, percentage: u8)
    requires
        percentage <= FULL_PERCENTAGE,
    ensures
        0 <= Emergency::payout(balance, percentage) <= balance,
{
    assert(0 <= (balance * percentage) / 100 <= balance) by (nonlinear_arith)
        requires
            percentage <= 100,
            0 <= balance,
    ;
}

} // verus!
