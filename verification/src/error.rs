use vstd::prelude::*;

verus! {

/// The terminal result of every rejected operation. Each error is detected
/// before any state is mutated, so a failed operation leaves every record and
/// every balance exactly as it found them; nothing is retried internally.
#[derive(Clone, Copy, PartialEq, Eq, Structural, Debug)]
pub enum NotarizError {
    /// The caller is not the record's designated controller.
    AuthorizationError,
    /// The share or percentage budget would be exceeded, or shrunk below what
    /// is already allocated.
    ConservationError,
    /// No matching inheritor, or a dependent record does not belong to the
    /// deed it was presented with.
    NotFoundError,
    /// The owner has not yet been inactive for a full withdrawal period, so no
    /// emergency claim is permitted.
    DeedWithdrawalTimeout,
    /// No valid claim stands behind the redeem: the emergency was never
    /// claimed, or the owner revived the deed after the claim.
    ClaimNeededToRedeem,
    /// The claim is too recent: the emergency's own withdrawal period has not
    /// elapsed since the claim.
    RedeemTimestampError,
    /// The operation is invalid for the record's current claim state, such as
    /// claiming twice or deleting an already-claimed emergency.
    StateError,
    /// The transfer cannot be settled: the source balance does not cover the
    /// amount, or the destination balance would not hold it.
    FundsError,
}

} // verus!
