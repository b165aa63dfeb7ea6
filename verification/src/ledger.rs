use vstd::prelude::*;

use crate::error::NotarizError;

verus! {

/// Moves `amount` from the balance behind `src` to the balance behind `dst`,
/// all or nothing: if the source cannot cover the amount, or the destination
/// could not hold the sum, nothing moves and the transfer fails.
pub fn transfer_lamports(src: &mut u64, dst: &mut u64, amount: u64) -> (r: Result<
    (),
    NotarizError,
>)
    ensures
        r is Ok <==> amount <= *old(src) && *old(dst) + amount <= u64::MAX,
        r is Ok ==> *final(src) == *old(src) - amount && *final(dst) == *old(dst) + amount,
        r is Err ==> *final(src) == *old(src) && *final(dst) == *old(dst) && r == Err::<
            (),
            NotarizError,
        >(NotarizError::FundsError),
{
    if amount > *src {
        return Err(NotarizError::FundsError);
    }
    if *dst > u64::MAX - amount {
        return Err(NotarizError::FundsError);
    }
    *src = *src - amount;
    *dst = *dst + amount;
    Ok(())
}

} // verus!
