use vstd::prelude::*;

use crate::account::{PlayerId, PlinkoStatus};
use crate::errors::PlinkoError;

verus! {

/// Pause or resume the engine, owner-only. A paused engine rejects new
/// games; resolution of already-open games is unaffected.
pub fn handler(status: &mut PlinkoStatus, authority: PlayerId, paused: bool) -> (r: Result<
    (),
    PlinkoError,
>)
    ensures
        r is Ok <==> old(status).owner == authority,
        old(status).owner != authority ==> r == Err::<(), PlinkoError>(PlinkoError::OnlyOwner)
            && *final(status) == *old(status),
        r is Ok ==> *final(status) == (PlinkoStatus { paused, ..*old(status) }),
{
    if !status.is_owner(&authority) {
        return Err(PlinkoError::OnlyOwner);
    }
    status.paused = paused;
    Ok(())
}

} // verus!
