use vstd::prelude::*;

use crate::account::{PlayerId, PlinkoStatus};
use crate::errors::PlinkoError;

verus! {

/// Lock the odds table for good: once locked there is no way back, so a
/// live house cannot move its odds. Idempotent; owner-only.
pub fn handler(status: &mut PlinkoStatus, authority: PlayerId) -> (r: Result<(), PlinkoError>)
    ensures
        r is Ok <==> old(status).owner == authority,
        old(status).owner != authority ==> r == Err::<(), PlinkoError>(PlinkoError::OnlyOwner)
            && *final(status) == *old(status),
        r is Ok ==> *final(status) == (PlinkoStatus { odds_locked: true, ..*old(status) }),
{
    if !status.is_owner(&authority) {
        return Err(PlinkoError::OnlyOwner);
    }
    status.odds_locked = true;
    Ok(())
}

} // verus!
