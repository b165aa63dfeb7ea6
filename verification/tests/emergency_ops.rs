use notariz::deed::Deed;
use notariz::emergency::Emergency;
use notariz::error::NotarizError;
use notariz::identity::Identity;

fn id(n: u64) -> Identity {
    Identity::new(n, 0, 0, 0)
}

/// A deed at time 1000 with a 100-second withdrawal period, and one emergency
/// promising 40 percent to `id(3)`, addressed as `id(9)`.
fn setup() -> (Deed, Emergency) {
    let owner = id(1);
    let mut d = Deed::open_deed(owner, 1000);
    d.edit_withdrawal_period(owner, 1000, 100).unwrap();
    let e = Emergency::add_emergency(&mut d, id(9), owner, 1000, id(3), 40).unwrap();
    (d, e)
}

#[test]
fn add_emergency_debits_budget_and_snapshots_period() {
    let (d, e) = setup();
    assert_eq!(d.left_to_be_shared, 60);
    assert_eq!(d.last_seen, 1000);
    assert_eq!(e.upstream_deed, id(9));
    assert_eq!(e.owner, id(1));
    assert_eq!(e.receiver, id(3));
    assert_eq!(e.percentage, 40);
    assert_eq!(e.withdrawal_period, 100);
    assert_eq!(e.claimed_timestamp, None);
}

#[test]
fn add_emergency_rejects_over_budget() {
    let (mut d, _e) = setup();
    let before = d.clone();
    let r = Emergency::add_emergency(&mut d, id(9), id(1), 1100, id(4), 61);
    assert_eq!(r, Err(NotarizError::ConservationError));
    assert_eq!(d, before);
    // The rest of the budget exactly is allowed.
    let r = Emergency::add_emergency(&mut d, id(9), id(1), 1100, id(4), 60);
    assert!(r.is_ok());
    assert_eq!(d.left_to_be_shared, 0);
}

#[test]
fn add_emergency_rejects_stranger() {
    let (mut d, _e) = setup();
    let before = d.clone();
    let r = Emergency::add_emergency(&mut d, id(9), id(3), 1100, id(3), 10);
    assert_eq!(r, Err(NotarizError::AuthorizationError));
    assert_eq!(d, before);
}

#[test]
fn budget_round_trip_restores_exactly() {
    let owner = id(1);
    let mut d = Deed::open_deed(owner, 1000);
    let left_before = d.left_to_be_shared;
    let e = Emergency::add_emergency(&mut d, id(9), owner, 1010, id(3), 30).unwrap();
    assert_eq!(d.left_to_be_shared, left_before - 30);
    assert_eq!(Emergency::delete_emergency(&mut d, id(9), owner, 1020, &e), Ok(()));
    assert_eq!(d.left_to_be_shared, left_before);
}

#[test]
fn delete_emergency_rejects_foreign_budget() {
    // A record pretending to 50 percent of a deed whose budget is whole could
    // not have come from that deed; restoring it would overflow the budget.
    let owner = id(1);
    let mut d = Deed::open_deed(owner, 1000);
    assert_eq!(d.left_to_be_shared, 100);
    let e = Emergency {
        upstream_deed: id(9),
        owner,
        receiver: id(3),
        percentage: 50,
        withdrawal_period: 100,
        claimed_timestamp: None,
    };
    let before = d.clone();
    assert_eq!(
        Emergency::delete_emergency(&mut d, id(9), owner, 1100, &e),
        Err(NotarizError::ConservationError)
    );
    assert_eq!(d, before);
}

#[test]
fn delete_emergency_guards() {
    let (mut d, mut e) = setup();
    // Stranger, and the receiver, may not delete.
    assert_eq!(
        Emergency::delete_emergency(&mut d, id(9), id(3), 1100, &e),
        Err(NotarizError::AuthorizationError)
    );
    // Wrong deed address: the record does not belong to that deed.
    assert_eq!(
        Emergency::delete_emergency(&mut d, id(8), id(1), 1100, &e),
        Err(NotarizError::NotFoundError)
    );
    // After a claim the owner may no longer delete.
    e.claim_emergency(&d, id(9), id(3), 1100).unwrap();
    let before = d.clone();
    assert_eq!(
        Emergency::delete_emergency(&mut d, id(9), id(1), 1150, &e),
        Err(NotarizError::StateError)
    );
    assert_eq!(d, before);
}

#[test]
fn claim_gated_by_inactivity() {
    let (d, mut e) = setup();
    // last_seen = 1000, period = 100: claiming before 1100 is premature.
    assert_eq!(e.claim_emergency(&d, id(9), id(3), 1099), Err(NotarizError::DeedWithdrawalTimeout));
    assert_eq!(e.claimed_timestamp, None);
    // At exactly one full period of silence the window opens.
    assert_eq!(e.claim_emergency(&d, id(9), id(3), 1100), Ok(()));
    assert_eq!(e.claimed_timestamp, Some(1100));
}

#[test]
fn claim_rejects_stranger_and_double_claim() {
    let (d, mut e) = setup();
    assert_eq!(e.claim_emergency(&d, id(9), id(5), 1200), Err(NotarizError::AuthorizationError));
    assert_eq!(e.claim_emergency(&d, id(8), id(3), 1200), Err(NotarizError::NotFoundError));
    assert_eq!(e.claim_emergency(&d, id(9), id(3), 1200), Ok(()));
    // Claiming again would reset the countdown; it is rejected.
    assert_eq!(e.claim_emergency(&d, id(9), id(3), 1300), Err(NotarizError::StateError));
    assert_eq!(e.claimed_timestamp, Some(1200));
}

#[test]
fn redeem_gated_by_claim_age() {
    let (d, mut e) = setup();
    e.claim_emergency(&d, id(9), id(3), 1100).unwrap();
    let mut db: u64 = 1000;
    let mut rb: u64 = 7;
    // The emergency's own 100-second period has not elapsed since the claim.
    let r = e.redeem_emergency(&d, id(9), id(3), 1199, &mut db, &mut rb);
    assert_eq!(r, Err(NotarizError::RedeemTimestampError));
    assert_eq!((db, rb), (1000, 7));
    // At exactly claim + period the payout moves.
    let r = e.redeem_emergency(&d, id(9), id(3), 1200, &mut db, &mut rb);
    assert_eq!(r, Ok(400));
    assert_eq!(db, 600);
    assert_eq!(rb, 407);
}

#[test]
fn redeem_needs_a_claim() {
    let (d, e) = setup();
    let mut db: u64 = 1000;
    let mut rb: u64 = 0;
    let r = e.redeem_emergency(&d, id(9), id(3), 5000, &mut db, &mut rb);
    assert_eq!(r, Err(NotarizError::ClaimNeededToRedeem));
    assert_eq!((db, rb), (1000, 0));
}

#[test]
fn redeem_rejects_stranger_and_wrong_deed() {
    let (d, mut e) = setup();
    e.claim_emergency(&d, id(9), id(3), 1100).unwrap();
    let mut db: u64 = 1000;
    let mut rb: u64 = 0;
    assert_eq!(
        e.redeem_emergency(&d, id(9), id(5), 1200, &mut db, &mut rb),
        Err(NotarizError::AuthorizationError)
    );
    assert_eq!(
        e.redeem_emergency(&d, id(8), id(3), 1200, &mut db, &mut rb),
        Err(NotarizError::NotFoundError)
    );
    assert_eq!((db, rb), (1000, 0));
}

#[test]
fn revival_aborts_emergency() {
    let (mut d, mut e) = setup();
    e.claim_emergency(&d, id(9), id(3), 1100).unwrap();
    // The owner shows life between claim and redeem.
    d.keep_alive(id(1), 1150).unwrap();
    let mut db: u64 = 1000;
    let mut rb: u64 = 0;
    // However long the receiver waits, the old claim no longer stands.
    let r = e.redeem_emergency(&d, id(9), id(3), 999_999, &mut db, &mut rb);
    assert_eq!(r, Err(NotarizError::ClaimNeededToRedeem));
    assert_eq!((db, rb), (1000, 0));
}

#[test]
fn redeem_payout_rounds_down() {
    // floor(B * 40 / 100) with B = 105 is 42; with B = 7 it is 2.
    let (d, mut e) = setup();
    e.claim_emergency(&d, id(9), id(3), 1100).unwrap();
    let mut db: u64 = 105;
    let mut rb: u64 = 0;
    assert_eq!(e.redeem_emergency(&d, id(9), id(3), 1200, &mut db, &mut rb), Ok(42));
    assert_eq!(db, 63);
    assert_eq!(rb, 42);

    let (d2, mut e2) = setup();
    e2.claim_emergency(&d2, id(9), id(3), 1100).unwrap();
    let mut db2: u64 = 7;
    let mut rb2: u64 = 0;
    assert_eq!(e2.redeem_emergency(&d2, id(9), id(3), 1200, &mut db2, &mut rb2), Ok(2));
    assert_eq!(db2, 5);
    assert_eq!(rb2, 2);
}

#[test]
fn redeem_whole_balance_at_full_percentage() {
    let owner = id(1);
    let mut d = Deed::open_deed(owner, 1000);
    d.edit_withdrawal_period(owner, 1000, 100).unwrap();
    let mut e = Emergency::add_emergency(&mut d, id(9), owner, 1000, id(3), 100).unwrap();
    assert_eq!(d.left_to_be_shared, 0);
    e.claim_emergency(&d, id(9), id(3), 1100).unwrap();
    let mut db: u64 = u64::MAX;
    let mut rb: u64 = 0;
    assert_eq!(e.redeem_emergency(&d, id(9), id(3), 1200, &mut db, &mut rb), Ok(u64::MAX));
    assert_eq!(db, 0);
    assert_eq!(rb, u64::MAX);
}

#[test]
fn redeem_rejects_receiver_overflow() {
    let (d, mut e) = setup();
    e.claim_emergency(&d, id(9), id(3), 1100).unwrap();
    let mut db: u64 = 1000;
    let mut rb: u64 = u64::MAX;
    let r = e.redeem_emergency(&d, id(9), id(3), 1200, &mut db, &mut rb);
    assert_eq!(r, Err(NotarizError::FundsError));
    assert_eq!((db, rb), (1000, u64::MAX));
}
