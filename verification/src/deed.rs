use vstd::prelude::*;

use crate::error::NotarizError;
use crate::identity::Identity;
use crate::ledger::transfer_lamports;

verus! {

/// Inactivity window a fresh deed starts with: two days, in seconds.
pub const DEFAULT_WITHDRAWAL_PERIOD: u64 = 2 * 3600 * 24;

/// The whole emergency percentage budget of one deed.
pub const FULL_PERCENTAGE: u8 = 100;

/// One inheritance entry: an identity entitled to `share` weight of the deed's
/// custodial value. Entries are mutated only through deed owner operations,
/// and at most one entry per identity ever exists.
#[derive(Clone, Copy, PartialEq, Eq, Structural, Debug)]
pub struct Inheritor {
    pub inheritor_address: Identity,
    pub share: u32,
}

/// The root record of the engine. It tracks the owner's liveness, the
/// inheritance shares under their cap, and the percentage budget left for
/// emergency designations. The custodial balance itself lives with the host
/// ledger and is handed to the operations that move value.
#[derive(Clone, PartialEq, Debug)]
pub struct Deed {
    /// Exclusively controls every mutation of the deed.
    pub owner: Identity,
    /// Optional backup identity for the recovery hand-off.
    pub recovery_address: Option<Identity>,
    /// Time of the owner's latest authenticated operation.
    pub last_seen: u64,
    /// Upper bound on the sum of inheritor shares.
    pub total_shares: u32,
    /// Running sum of the inheritor shares; never exceeds `total_shares`.
    pub shares_used: u32,
    /// Minimum inactivity, in seconds, before a downstream claim is permitted.
    pub withdrawal_period: u64,
    /// Optional duration overriding the default inactivity threshold.
    pub expiration: Option<u64>,
    /// Percentage of the custodial balance not yet promised to an emergency.
    pub left_to_be_shared: u8,
    /// The inheritance entries, at most one per identity.
    pub inheritance: Vec<Inheritor>,
}

/// Sum of the shares of a sequence of inheritance entries.
pub open spec fn sum_shares(s: Seq<Inheritor>) -> int
    decreases s.len(),
{
    if s.len() == 0 {
        0
    } else {
        s[0].share + sum_shares(s.skip(1))
    }
}

/// No identity appears twice among the entries.
pub open spec fn unique_inheritors(s: Seq<Inheritor>) -> bool {
    forall|i: int, j: int|
        0 <= i < j < s.len() ==> s[i].inheritor_address != s[j].inheritor_address
}

/// Some entry carries the identity `a`.
pub open spec fn has_inheritor(s: Seq<Inheritor>, a: Identity) -> bool {
    exists|i: int| 0 <= i < s.len() && s[i].inheritor_address == a
}

/// The position of the entry carrying the identity `a`; meaningful only when
/// `has_inheritor(s, a)` holds, and then unique under `unique_inheritors`.
pub open spec fn inheritor_index(s: Seq<Inheritor>, a: Identity) -> int {
    choose|i: int| 0 <= i < s.len() && s[i].inheritor_address == a
}

/// `post` is `pre` with its liveness refreshed to `now` and nothing else
/// touched: the effect of every owner operation that only proves liveness.
pub open spec fn refreshed(pre: Deed, post: Deed, now: u64) -> bool {
    post == (Deed { last_seen: now, ..pre })
}

/// The two deeds agree on every field outside the share ledger and the
/// liveness timestamp.
pub open spec fn eq_outside_shares(a: Deed, b: Deed) -> bool {
    &&& a.owner == b.owner
    &&& a.recovery_address == b.recovery_address
    &&& a.total_shares == b.total_shares
    &&& a.withdrawal_period == b.withdrawal_period
    &&& a.expiration == b.expiration
    &&& a.left_to_be_shared == b.left_to_be_shared
}

/// The conservation check `set_inheritor` enforces: after replacing or
/// appending the entry, the running sum still fits under the cap.
pub open spec fn set_inheritor_fits(d: Deed, inh: Inheritor) -> bool {
    if has_inheritor(d.inheritance@, inh.inheritor_address) {
        d.shares_used - d.inheritance@[inheritor_index(d.inheritance@, inh.inheritor_address)].share
            + inh.share <= d.total_shares
    } else {
        d.shares_used + inh.share <= d.total_shares
    }
}

/// A sum of shares is never negative.
pub proof fn lemma_sum_shares_nonneg(s: Seq<Inheritor>)
    ensures
        sum_shares(s) >= 0,
    decreases s.len(),
{
    if s.len() > 0 {
        lemma_sum_shares_nonneg(s.skip(1));
    }
}

/// Appending an entry grows the sum by exactly its share.
pub proof fn lemma_sum_shares_push(s: Seq<Inheritor>, x: Inheritor)
    ensures
        sum_shares(s.push(x)) == sum_shares(s) + x.share,
    decreases s.len(),
{
    if s.len() == 0 {
        assert(s.push(x)[0] == x);
        assert(s.push(x).skip(1) =~= Seq::<Inheritor>::empty());
        assert(sum_shares(s.push(x)) == x.share + sum_shares(Seq::<Inheritor>::empty()));
    } else {
        assert(s.push(x)[0] == s[0]);
        assert(s.push(x).skip(1) =~= s.skip(1).push(x));
        lemma_sum_shares_push(s.skip(1), x);
        assert(sum_shares(s.push(x)) == s[0].share + sum_shares(s.skip(1).push(x)));
    }
}

/// Replacing an entry moves the sum by the difference of the shares.
pub proof fn lemma_sum_shares_update(s: Seq<Inheritor>, i: int, x: Inheritor)
    requires
        0 <= i < s.len(),
    ensures
        sum_shares(s.update(i, x)) == sum_shares(s) - s[i].share + x.share,
    decreases i,
{
    if i == 0 {
        assert(s.update(0, x).skip(1) =~= s.skip(1));
    } else {
        assert(s.update(i, x).skip(1) =~= s.skip(1).update(i - 1, x));
        lemma_sum_shares_update(s.skip(1), i - 1, x);
    }
}

/// Removing an entry shrinks the sum by exactly its share.
pub proof fn lemma_sum_shares_remove(s: Seq<Inheritor>, i: int)
    requires
        0 <= i < s.len(),
    ensures
        sum_shares(s.remove(i)) == sum_shares(s) - s[i].share,
    decreases i,
{
    if i == 0 {
        assert(s.remove(0) =~= s.skip(1));
    } else {
        assert(s.remove(i).skip(1) =~= s.skip(1).remove(i - 1));
        lemma_sum_shares_remove(s.skip(1), i - 1);
    }
}

/// No single entry's share exceeds the sum.
pub proof fn lemma_share_le_sum(s: Seq<Inheritor>, i: int)
    requires
        0 <= i < s.len(),
    ensures
        s[i].share <= sum_shares(s),
    decreases i,
{
    if i == 0 {
        lemma_sum_shares_nonneg(s.skip(1));
    } else {
        lemma_share_le_sum(s.skip(1), i - 1);
    }
}

impl Deed {
    /// Well-formedness: the running counter is the sum of the shares, the sum
    /// respects its cap, the emergency budget never exceeds the whole, and no
    /// inheritor is listed twice. Every operation preserves it.
    pub open spec fn wf(self) -> bool {
        &&& self.shares_used == sum_shares(self.inheritance@)
        &&& self.shares_used <= self.total_shares
        &&& self.left_to_be_shared <= FULL_PERCENTAGE
        &&& unique_inheritors(self.inheritance@)
    }

    /// Opens a deed for `owner` at time `now`: no inheritors and a share cap
    /// of zero, which the owner raises before allocating shares; no recovery
    /// identity, the default inactivity window, and the whole emergency
    /// budget available.
    pub fn open_deed(owner: Identity, now: u64) -> (d: Deed)
        ensures
            d.wf(),
            d.owner == owner,
            d.recovery_address is None,
            d.last_seen == now,
            d.total_shares == 0,
            d.shares_used == 0,
            d.withdrawal_period == DEFAULT_WITHDRAWAL_PERIOD,
            d.expiration is None,
            d.left_to_be_shared == FULL_PERCENTAGE,
            d.inheritance@ =~= Seq::<Inheritor>::empty(),
    {
        Deed {
            owner,
            recovery_address: None,
            last_seen: now,
            total_shares: 0,
            shares_used: 0,
            withdrawal_period: DEFAULT_WITHDRAWAL_PERIOD,
            expiration: None,
            left_to_be_shared: FULL_PERCENTAGE,
            inheritance: Vec::new(),
        }
    }

    /// Refreshes the owner's liveness. It never fails for the true owner, and
    /// sets `last_seen` to the current time handed in by the host clock.
    pub fn keep_alive(&mut self, caller: Identity, now: u64) -> (r: Result<(), NotarizError>)
        requires
            old(self).wf(),
        ensures
            final(self).wf(),
            r is Ok <==> caller == old(self).owner,
            r is Ok ==> refreshed(*old(self), *final(self), now),
            r is Err ==> *final(self) == *old(self) && r == Err::<(), NotarizError>(
                NotarizError::AuthorizationError,
            ),
    {
        if caller != self.owner {
            return Err(NotarizError::AuthorizationError);
        }
        self.last_seen = now;
        Ok(())
    }

    /// Replaces the inactivity window that gates downstream claims, and
    /// refreshes the owner's liveness.
    pub fn edit_withdrawal_period(&mut self, caller: Identity, now: u64, withdrawal_period: u64) -> (r:
        Result<(), NotarizError>)
        requires
            old(self).wf(),
        ensures
            final(self).wf(),
            r is Ok <==> caller == old(self).owner,
            r is Ok ==> *final(self) == (Deed {
                last_seen: now,
                withdrawal_period,
                ..*old(self)
            }),
            r is Err ==> *final(self) == *old(self) && r == Err::<(), NotarizError>(
                NotarizError::AuthorizationError,
            ),
    {
        if caller != self.owner {
            return Err(NotarizError::AuthorizationError);
        }
        self.withdrawal_period = withdrawal_period;
        self.last_seen = now;
        Ok(())
    }

    /// Hands the deed over to a new owner, who controls it exclusively from
    /// then on.
    pub fn edit_owner(&mut self, caller: Identity, now: u64, new_owner: Identity) -> (r: Result<
        (),
        NotarizError,
    >)
        requires
            old(self).wf(),
        ensures
            final(self).wf(),
            r is Ok <==> caller == old(self).owner,
            r is Ok ==> *final(self) == (Deed { last_seen: now, owner: new_owner, ..*old(self) }),
            r is Err ==> *final(self) == *old(self) && r == Err::<(), NotarizError>(
                NotarizError::AuthorizationError,
            ),
    {
        if caller != self.owner {
            return Err(NotarizError::AuthorizationError);
        }
        self.owner = new_owner;
        self.last_seen = now;
        Ok(())
    }

    /// Sets the optional duration that overrides the default inactivity
    /// threshold.
    pub fn set_expiration(&mut self, caller: Identity, now: u64, duration: u64) -> (r: Result<
        (),
        NotarizError,
    >)
        requires
            old(self).wf(),
        ensures
            final(self).wf(),
            r is Ok <==> caller == old(self).owner,
            r is Ok ==> *final(self) == (Deed {
                last_seen: now,
                expiration: Some(duration),
                ..*old(self)
            }),
            r is Err ==> *final(self) == *old(self) && r == Err::<(), NotarizError>(
                NotarizError::AuthorizationError,
            ),
    {
        if caller != self.owner {
            return Err(NotarizError::AuthorizationError);
        }
        self.expiration = Some(duration);
        self.last_seen = now;
        Ok(())
    }

    /// Clears the expiration override.
    pub fn unset_expiration(&mut self, caller: Identity, now: u64) -> (r: Result<(), NotarizError>)
        requires
            old(self).wf(),
        ensures
            final(self).wf(),
            r is Ok <==> caller == old(self).owner,
            r is Ok ==> *final(self) == (Deed { last_seen: now, expiration: None, ..*old(self) }),
            r is Err ==> *final(self) == *old(self) && r == Err::<(), NotarizError>(
                NotarizError::AuthorizationError,
            ),
    {
        if caller != self.owner {
            return Err(NotarizError::AuthorizationError);
        }
        self.expiration = None;
        self.last_seen = now;
        Ok(())
    }

    /// Designates the backup identity of the recovery protocol.
    pub fn set_recovery_account(&mut self, caller: Identity, now: u64, key: Identity) -> (r: Result<
        (),
        NotarizError,
    >)
        requires
            old(self).wf(),
        ensures
            final(self).wf(),
            r is Ok <==> caller == old(self).owner,
            r is Ok ==> *final(self) == (Deed {
                last_seen: now,
                recovery_address: Some(key),
                ..*old(self)
            }),
            r is Err ==> *final(self) == *old(self) && r == Err::<(), NotarizError>(
                NotarizError::AuthorizationError,
            ),
    {
        if caller != self.owner {
            return Err(NotarizError::AuthorizationError);
        }
        self.recovery_address = Some(key);
        self.last_seen = now;
        Ok(())
    }

    /// Withdraws the backup identity designation.
    pub fn unset_recovery_account(&mut self, caller: Identity, now: u64) -> (r: Result<
        (),
        NotarizError,
    >)
        requires
            old(self).wf(),
        ensures
            final(self).wf(),
            r is Ok <==> caller == old(self).owner,
            r is Ok ==> *final(self) == (Deed {
                last_seen: now,
                recovery_address: None,
                ..*old(self)
            }),
            r is Err ==> *final(self) == *old(self) && r == Err::<(), NotarizError>(
                NotarizError::AuthorizationError,
            ),
    {
        if caller != self.owner {
            return Err(NotarizError::AuthorizationError);
        }
        self.recovery_address = None;
        self.last_seen = now;
        Ok(())
    }

    /// Replaces the cap on the sum of inheritor shares. Shrinking it below
    /// what is already allocated is rejected, so conservation never breaks.
    pub fn change_total_shares(&mut self, caller: Identity, now: u64, total_shares: u32) -> (r:
        Result<(), NotarizError>)
        requires
            old(self).wf(),
        ensures
            final(self).wf(),
            r is Ok <==> caller == old(self).owner && old(self).shares_used <= total_shares,
            r is Ok ==> *final(self) == (Deed { last_seen: now, total_shares, ..*old(self) }),
            caller != old(self).owner ==> r == Err::<(), NotarizError>(
                NotarizError::AuthorizationError,
            ),
            caller == old(self).owner && old(self).shares_used > total_shares ==> r == Err::<
                (),
                NotarizError,
            >(NotarizError::ConservationError),
            r is Err ==> *final(self) == *old(self),
    {
        if caller != self.owner {
            return Err(NotarizError::AuthorizationError);
        }
        if self.shares_used > total_shares {
            return Err(NotarizError::ConservationError);
        }
        self.total_shares = total_shares;
        self.last_seen = now;
        Ok(())
    }

    /// The position of the entry carrying `address`, if any.
    fn find_inheritor(&self, address: Identity) -> (r: Option<usize>)
        ensures
            match r {
                Some(i) => i < self.inheritance@.len() && self.inheritance@[i as int].inheritor_address
                    == address,
                None => !has_inheritor(self.inheritance@, address),
            },
    {
        let mut i: usize = 0;
        while i < self.inheritance.len()
            invariant
                i <= self.inheritance@.len(),
                forall|j: int| 0 <= j < i ==> self.inheritance@[j].inheritor_address != address,
            decreases self.inheritance@.len() - i,
        {
            if self.inheritance[i].inheritor_address == address {
                return Some(i);
            }
            i = i + 1;
        }
        None
    }

    /// Records that `inheritor.inheritor_address` is entitled to
    /// `inheritor.share`: an identity already present has its share replaced
    /// in place, a new identity is appended. Either way the running sum is
    /// adjusted, and the operation is rejected atomically if the sum would
    /// exceed the cap.
    pub fn set_inheritor(&mut self, caller: Identity, now: u64, inheritor: Inheritor) -> (r: Result<
        (),
        NotarizError,
    >)
        requires
            old(self).wf(),
        ensures
            final(self).wf(),
            eq_outside_shares(*old(self), *final(self)),
            r is Ok <==> caller == old(self).owner && set_inheritor_fits(*old(self), inheritor),
            caller != old(self).owner ==> r == Err::<(), NotarizError>(
                NotarizError::AuthorizationError,
            ),
            caller == old(self).owner && !set_inheritor_fits(*old(self), inheritor) ==> r == Err::<
                (),
                NotarizError,
            >(NotarizError::ConservationError),
            r is Err ==> *final(self) == *old(self),
            r is Ok ==> final(self).last_seen == now,
            r is Ok && has_inheritor(old(self).inheritance@, inheritor.inheritor_address)
                ==> final(self).inheritance@ == old(self).inheritance@.update(
                inheritor_index(old(self).inheritance@, inheritor.inheritor_address),
                inheritor,
            ) && final(self).shares_used == old(self).shares_used - old(self).inheritance@[
                inheritor_index(old(self).inheritance@, inheritor.inheritor_address)
            ].share + inheritor.share,
            r is Ok && !has_inheritor(old(self).inheritance@, inheritor.inheritor_address)
                ==> final(self).inheritance@ == old(self).inheritance@.push(inheritor)
                && final(self).shares_used == old(self).shares_used + inheritor.share,
    {
        if caller != self.owner {
            return Err(NotarizError::AuthorizationError);
        }
        match self.find_inheritor(inheritor.inheritor_address) {
            Some(i) => {
                let ghost s = self.inheritance@;
                proof {
                    lemma_unique_index(s, inheritor.inheritor_address, i as int);
                    lemma_share_le_sum(s, i as int);
                }
                let old_share = self.inheritance[i].share;
                if self.shares_used - old_share > u32::MAX - inheritor.share
                    || self.shares_used - old_share + inheritor.share > self.total_shares {
                    return Err(NotarizError::ConservationError);
                }
                let new_used = self.shares_used - old_share + inheritor.share;
                let entry = &mut self.inheritance[i];
                *entry = inheritor;
                self.shares_used = new_used;
                self.last_seen = now;
                proof {
                    lemma_sum_shares_update(s, i as int, inheritor);
                }
                Ok(())
            },
            None => {
                if inheritor.share > u32::MAX - self.shares_used
                    || self.shares_used + inheritor.share > self.total_shares {
                    return Err(NotarizError::ConservationError);
                }
                let ghost s = self.inheritance@;
                self.shares_used = self.shares_used + inheritor.share;
                self.inheritance.push(inheritor);
                self.last_seen = now;
                proof {
                    lemma_sum_shares_push(s, inheritor);
                }
                Ok(())
            },
        }
    }

    /// Removes the entry carrying `address` and gives its share back to the
    /// budget; an absent identity is reported, with nothing changed.
    pub fn unset_inheritor(&mut self, caller: Identity, now: u64, address: Identity) -> (r: Result<
        (),
        NotarizError,
    >)
        requires
            old(self).wf(),
        ensures
            final(self).wf(),
            eq_outside_shares(*old(self), *final(self)),
            r is Ok <==> caller == old(self).owner && has_inheritor(
                old(self).inheritance@,
                address,
            ),
            caller != old(self).owner ==> r == Err::<(), NotarizError>(
                NotarizError::AuthorizationError,
            ),
            caller == old(self).owner && !has_inheritor(old(self).inheritance@, address) ==> r
                == Err::<(), NotarizError>(NotarizError::NotFoundError),
            r is Err ==> *final(self) == *old(self),
            r is Ok ==> final(self).last_seen == now
                && final(self).inheritance@ == old(self).inheritance@.remove(
                    inheritor_index(old(self).inheritance@, address),
                )
                && final(self).shares_used == old(self).shares_used
                    - old(self).inheritance@[inheritor_index(old(self).inheritance@, address)].share,
    {
        if caller != self.owner {
            return Err(NotarizError::AuthorizationError);
        }
        match self.find_inheritor(address) {
            Some(i) => {
                let ghost s = self.inheritance@;
                proof {
                    lemma_unique_index(s, address, i as int);
                    lemma_share_le_sum(s, i as int);
                    lemma_sum_shares_remove(s, i as int);
                }
                let removed = self.inheritance.remove(i);
                self.shares_used = self.shares_used - removed.share;
                self.last_seen = now;
                Ok(())
            },
            None => Err(NotarizError::NotFoundError),
        }
    }

    /// Pays `lamports_to_send` out of the deed's custodial balance back to the
    /// owner, and refreshes the owner's liveness. A balance that cannot cover
    /// the amount, or an owner balance that could not hold it, rejects the
    /// withdrawal with nothing moved.
    pub fn withdraw_deed_lamports(
        &mut self,
        caller: Identity,
        now: u64,
        deed_balance: &mut u64,
        owner_balance: &mut u64,
        lamports_to_send: u64,
    ) -> (r: Result<(), NotarizError>)
        requires
            old(self).wf(),
        ensures
            final(self).wf(),
            r is Ok <==> caller == old(self).owner && lamports_to_send <= *old(deed_balance) && *old(
                owner_balance,
            ) + lamports_to_send <= u64::MAX,
            r is Ok ==> refreshed(*old(self), *final(self), now) && *final(deed_balance) == *old(
                deed_balance,
            ) - lamports_to_send && *final(owner_balance) == *old(owner_balance)
                + lamports_to_send,
            caller != old(self).owner ==> r == Err::<(), NotarizError>(
                NotarizError::AuthorizationError,
            ),
            caller == old(self).owner && !(lamports_to_send <= *old(deed_balance) && *old(
                owner_balance,
            ) + lamports_to_send <= u64::MAX) ==> r == Err::<(), NotarizError>(
                NotarizError::FundsError,
            ),
            r is Err ==> *final(self) == *old(self) && *final(deed_balance) == *old(deed_balance)
                && *final(owner_balance) == *old(owner_balance),
    {
        if caller != self.owner {
            return Err(NotarizError::AuthorizationError);
        }
        match transfer_lamports(deed_balance, owner_balance, lamports_to_send) {
            Ok(()) => {
                self.last_seen = now;
                Ok(())
            },
            Err(e) => Err(e),
        }
    }

    /// Decides whether the deed may be closed: only its owner may close it,
    /// and only once no emergency or recovery record depends on it. The host
    /// then retires the record and returns any residual custodial balance to
    /// the owner.
    pub fn delete_deed(&self, caller: Identity, open_emergencies: usize, open_recoveries: usize) -> (r:
        Result<(), NotarizError>)
        ensures
            r is Ok <==> caller == self.owner && open_emergencies == 0 && open_recoveries == 0,
            caller != self.owner ==> r == Err::<(), NotarizError>(NotarizError::AuthorizationError),
            caller == self.owner && !(open_emergencies == 0 && open_recoveries == 0) ==> r
                == Err::<(), NotarizError>(NotarizError::StateError),
    {
        if caller != self.owner {
            return Err(NotarizError::AuthorizationError);
        }
        if open_emergencies != 0 || open_recoveries != 0 {
            return Err(NotarizError::StateError);
        }
        Ok(())
    }
}

/// Under uniqueness, an index that carries `a` is the index `inheritor_index`
/// picks.
pub proof fn lemma_unique_index(s: Seq<Inheritor>, a: Identity, i: int)
    requires
        unique_inheritors(s),
        0 <= i < s.len(),
        s[i].inheritor_address == a,
    ensures
        has_inheritor(s, a),
        inheritor_index(s, a) == i,
{
    assert(has_inheritor(s, a));
    let j = inheritor_index(s, a);
    if i < j {
        assert(s[i].inheritor_address != s[j].inheritor_address);
    } else if j < i {
        assert(s[j].inheritor_address != s[i].inheritor_address);
    }
}

} // verus!
