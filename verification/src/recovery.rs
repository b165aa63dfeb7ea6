use vstd::prelude::*;

use crate::deed::Deed;
use crate::error::NotarizError;
use crate::identity::Identity;
use crate::ledger::transfer_lamports;

verus! {

/// A backup-identity hand-off record: the owner designates a receiver who may
/// take the deed's whole remaining custodial balance if the owner's
/// credentials are lost. The hand-off is a single phase, independent of the
/// inheritance shares, and gated by authorization alone.
#[derive(Clone, Copy, PartialEq, Eq, Structural, Debug)]
pub struct Recovery {
    /// Back-reference to the deed; a lookup key, never an ownership claim.
    pub upstream_deed: Identity,
    /// The deed's owner at designation time.
    pub owner: Identity,
    /// The identity entitled to redeem the hand-off.
    pub receiver: Identity,
    /// Marks completion: set once the receiver has taken the balance, after
    /// which the host retires the record.
    pub redeemed: bool,
}

impl Recovery {
    /// Designates `receiver` as the backup identity of `deed`, refreshing the
    /// owner's liveness.
    pub fn add_recovery(
        deed: &mut Deed,
        deed_address: Identity,
        caller: Identity,
        now: u64,
        receiver: Identity,
    ) -> (r: Result<Recovery, NotarizError>)
        requires
            old(deed).wf(),
        ensures
            final(deed).wf(),
            r is Ok <==> caller == old(deed).owner,
            r matches Ok(rec) ==> crate::deed::refreshed(*old(deed), *final(deed), now) && rec
                == (Recovery {
                upstream_deed: deed_address,
                owner: caller,
                receiver,
                redeemed: false,
            }),
            r is Err ==> *final(deed) == *old(deed) && r == Err::<Recovery, NotarizError>(
                NotarizError::AuthorizationError,
            ),
    {
        if caller != deed.owner {
            return Err(NotarizError::AuthorizationError);
        }
        deed.last_seen = now;
        Ok(Recovery { upstream_deed: deed_address, owner: caller, receiver, redeemed: false })
    }

    /// Withdraws a hand-off designation. Only the owner of both records may
    /// delete, and only against the deed the record points at; the host then
    /// retires the record. The owner's liveness is refreshed.
    pub fn delete_recovery(
        deed: &mut Deed,
        deed_address: Identity,
        caller: Identity,
        now: u64,
        recovery: &Recovery,
    ) -> (r: Result<(), NotarizError>)
        requires
            old(deed).wf(),
        ensures
            final(deed).wf(),
            r is Ok <==> caller == old(deed).owner && caller == recovery.owner
                && recovery.upstream_deed == deed_address,
            r is Ok ==> crate::deed::refreshed(*old(deed), *final(deed), now),
            r is Err ==> *final(deed) == *old(deed),
            !(caller == old(deed).owner && caller == recovery.owner) ==> r == Err::<
                (),
                NotarizError,
            >(NotarizError::AuthorizationError),
            caller == old(deed).owner && caller == recovery.owner && recovery.upstream_deed
                != deed_address ==> r == Err::<(), NotarizError>(NotarizError::NotFoundError),
    {
        if caller != deed.owner || caller != recovery.owner {
            return Err(NotarizError::AuthorizationError);
        }
        if recovery.upstream_deed != deed_address {
            return Err(NotarizError::NotFoundError);
        }
        deed.last_seen = now;
        Ok(())
    }

    /// Redeems the hand-off: the designated receiver takes the deed's whole
    /// remaining custodial balance, the record is marked complete, and the
    /// host retires it. A hand-off already consumed is rejected. No time-lock
    /// gates this path; authorization, the back-reference and the completion
    /// mark are its only guards.
    pub fn redeem_recovery(
        &mut self,
        deed_address: Identity,
        caller: Identity,
        deed_balance: &mut u64,
        receiver_balance: &mut u64,
    ) -> (r: Result<u64, NotarizError>)
        ensures
            r is Ok <==> caller == old(self).receiver && old(self).upstream_deed == deed_address
                && !old(self).redeemed && *old(receiver_balance) + *old(deed_balance) <= u64::MAX,
            r matches Ok(amount) ==> amount == *old(deed_balance) && *final(deed_balance) == 0
                && *final(receiver_balance) == *old(receiver_balance) + amount && *final(self)
                == (Recovery { redeemed: true, ..*old(self) }),
            r is Err ==> *final(self) == *old(self) && *final(deed_balance) == *old(deed_balance)
                && *final(receiver_balance) == *old(receiver_balance),
            caller != old(self).receiver ==> r == Err::<u64, NotarizError>(
                NotarizError::AuthorizationError,
            ),
            caller == old(self).receiver && old(self).upstream_deed != deed_address ==> r == Err::<
                u64,
                NotarizError,
            >(NotarizError::NotFoundError),
            caller == old(self).receiver && old(self).upstream_deed == deed_address && old(
                self,
            ).redeemed ==> r == Err::<u64, NotarizError>(NotarizError::StateError),
            caller == old(self).receiver && old(self).upstream_deed == deed_address && !old(
                self,
            ).redeemed && *old(receiver_balance) + *old(deed_balance) > u64::MAX ==> r == Err::<
                u64,
                NotarizError,
            >(NotarizError::FundsError),
    {
        if caller != self.receiver {
            return Err(NotarizError::AuthorizationError);
        }
        if self.upstream_deed != deed_address {
            return Err(NotarizError::NotFoundError);
        }
        if self.redeemed {
            return Err(NotarizError::StateError);
        }
        let amount = *deed_balance;
        match transfer_lamports(deed_balance, receiver_balance, amount) {
            Ok(()) => {
                self.redeemed = true;
                Ok(amount)
            },
            Err(e) => Err(e),
        }
    }
}

} // verus!
