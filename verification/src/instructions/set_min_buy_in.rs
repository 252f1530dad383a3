use vstd::prelude::*;

use crate::account::{PlayerId, PlinkoStatus};
use crate::errors::PlinkoError;

verus! {

/// Live tuning of the minimum buy-in, owner-only; zero is not a buy-in.
pub fn handler(status: &mut PlinkoStatus, authority: PlayerId, new_min_buy_in: u64) -> (r: Result<
    (),
    PlinkoError,
>)
    ensures
        r is Ok <==> old(status).owner == authority && new_min_buy_in > 0,
        old(status).owner != authority ==> r == Err::<(), PlinkoError>(PlinkoError::OnlyOwner),
        old(status).owner == authority && new_min_buy_in == 0 ==> r == Err::<(), PlinkoError>(
            PlinkoError::InvalidValue,
        ),
        r is Err ==> *final(status) == *old(status),
        r is Ok ==> *final(status) == (PlinkoStatus { min_buy_in: new_min_buy_in, ..*old(status) }),
{
    if !status.is_owner(&authority) {
        return Err(PlinkoError::OnlyOwner);
    }
    if new_min_buy_in == 0 {
        return Err(PlinkoError::InvalidValue);
    }
    status.min_buy_in = new_min_buy_in;
    Ok(())
}

} // verus!
