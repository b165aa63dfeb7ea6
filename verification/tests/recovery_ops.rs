use notariz::deed::Deed;
use notariz::error::NotarizError;
use notariz::identity::Identity;
use notariz::recovery::Recovery;

fn id(n: u64) -> Identity {
    Identity::new(n, 0, 0, 0)
}

#[test]
fn add_recovery_designates_receiver() {
    let mut d = Deed::open_deed(id(1), 100);
    let rec = Recovery::add_recovery(&mut d, id(9), id(1), 150, id(4)).unwrap();
    assert_eq!(rec.upstream_deed, id(9));
    assert_eq!(rec.owner, id(1));
    assert_eq!(rec.receiver, id(4));
    assert_eq!(d.last_seen, 150);
}

#[test]
fn add_recovery_rejects_stranger() {
    let mut d = Deed::open_deed(id(1), 100);
    let before = d.clone();
    let r = Recovery::add_recovery(&mut d, id(9), id(4), 150, id(4));
    assert_eq!(r, Err(NotarizError::AuthorizationError));
    assert_eq!(d, before);
}

#[test]
fn delete_recovery_guards() {
    let mut d = Deed::open_deed(id(1), 100);
    let rec = Recovery::add_recovery(&mut d, id(9), id(1), 150, id(4)).unwrap();
    assert_eq!(
        Recovery::delete_recovery(&mut d, id(9), id(4), 200, &rec),
        Err(NotarizError::AuthorizationError)
    );
    assert_eq!(
        Recovery::delete_recovery(&mut d, id(8), id(1), 200, &rec),
        Err(NotarizError::NotFoundError)
    );
    assert_eq!(d.last_seen, 150);
    assert_eq!(Recovery::delete_recovery(&mut d, id(9), id(1), 200, &rec), Ok(()));
    assert_eq!(d.last_seen, 200);
}

#[test]
fn redeem_recovery_takes_whole_balance() {
    let mut d = Deed::open_deed(id(1), 100);
    let mut rec = Recovery::add_recovery(&mut d, id(9), id(1), 150, id(4)).unwrap();
    assert!(!rec.redeemed);
    let mut deed_balance: u64 = 12345;
    let mut receiver_balance: u64 = 55;
    let r = rec.redeem_recovery(id(9), id(4), &mut deed_balance, &mut receiver_balance);
    assert_eq!(r, Ok(12345));
    assert_eq!(deed_balance, 0);
    assert_eq!(receiver_balance, 12400);
    assert!(rec.redeemed);
    // A consumed hand-off cannot be redeemed again.
    let r = rec.redeem_recovery(id(9), id(4), &mut deed_balance, &mut receiver_balance);
    assert_eq!(r, Err(NotarizError::StateError));
    assert_eq!((deed_balance, receiver_balance), (0, 12400));
}

#[test]
fn redeem_recovery_guards() {
    let mut rec =
        Recovery { upstream_deed: id(9), owner: id(1), receiver: id(4), redeemed: false };
    let mut deed_balance: u64 = 100;
    let mut receiver_balance: u64 = 0;
    assert_eq!(
        rec.redeem_recovery(id(9), id(1), &mut deed_balance, &mut receiver_balance),
        Err(NotarizError::AuthorizationError)
    );
    assert_eq!(
        rec.redeem_recovery(id(8), id(4), &mut deed_balance, &mut receiver_balance),
        Err(NotarizError::NotFoundError)
    );
    assert_eq!((deed_balance, receiver_balance), (100, 0));
    let mut full: u64 = u64::MAX;
    assert_eq!(
        rec.redeem_recovery(id(9), id(4), &mut deed_balance, &mut full),
        Err(NotarizError::FundsError)
    );
    assert_eq!((deed_balance, full), (100, u64::MAX));
}
