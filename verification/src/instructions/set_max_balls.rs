use vstd::prelude::*;

use crate::account::{PlayerId, PlinkoStatus, MAX_BUCKETS};
use crate::errors::PlinkoError;

verus! {

/// Live tuning of the per-game ball cap, owner-only, at most `MAX_BUCKETS`.
pub fn handler(status: &mut PlinkoStatus, authority: PlayerId, new_max_balls: u8) -> (r: Result<
    (),
    PlinkoError,
>)
    ensures
        r is Ok <==> old(status).owner == authority && new_max_balls as int <= MAX_BUCKETS,
        old(status).owner != authority ==> r == Err::<(), PlinkoError>(PlinkoError::OnlyOwner),
        old(status).owner == authority && (new_max_balls as int) > MAX_BUCKETS ==> r == Err::<
            (),
            PlinkoError,
        >(PlinkoError::MaxBallsTooHigh),
        r is Err ==> *final(status) == *old(status),
        r is Ok ==> *final(status) == (PlinkoStatus { max_balls: new_max_balls, ..*old(status) }),
{
    if !status.is_owner(&authority) {
        return Err(PlinkoError::OnlyOwner);
    }
    if new_max_balls as usize > MAX_BUCKETS {
        return Err(PlinkoError::MaxBallsTooHigh);
    }
    status.max_balls = new_max_balls;
    Ok(())
}

} // verus!
