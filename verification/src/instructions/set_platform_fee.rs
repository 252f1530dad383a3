use vstd::prelude::*;

use crate::account::{PlayerId, PlinkoStatus};
use crate::errors::PlinkoError;

verus! {

/// Live tuning of the platform fee, owner-only, capped at 500 basis points.
pub fn handler(status: &mut PlinkoStatus, authority: PlayerId, new_fee: u64) -> (r: Result<
    (),
    PlinkoError,
>)
    ensures
        r is Ok <==> old(status).owner == authority && new_fee <= 500,
        old(status).owner != authority ==> r == Err::<(), PlinkoError>(PlinkoError::OnlyOwner),
        old(status).owner == authority && new_fee > 500 ==> r == Err::<(), PlinkoError>(
            PlinkoError::PlatformFeeTooHigh,
        ),
        r is Err ==> *final(status) == *old(status),
        r is Ok ==> *final(status) == (PlinkoStatus { platform_fee: new_fee, ..*old(status) }),
{
    if !status.is_owner(&authority) {
        return Err(PlinkoError::OnlyOwner);
    }
    if new_fee > 500 {
        return Err(PlinkoError::PlatformFeeTooHigh);
    }
    status.platform_fee = new_fee;
    Ok(())
}

} // verus!
