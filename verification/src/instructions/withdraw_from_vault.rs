use vstd::prelude::*;

use crate::account::{House, PlayerId, PlinkoStatus};
use crate::errors::PlinkoError;

verus! {

/// Move funds out of the escrowed bankroll to the owner. Fails when the
/// bankroll holds less than the requested amount; the caller performs the
/// actual transfer of the returned amount.
pub fn handler(status: &PlinkoStatus, house: &mut House, authority: PlayerId, amount: u64) -> (r:
    Result<(), PlinkoError>)
    ensures
        r is Ok <==> status.owner == authority && old(house).balance >= amount,
        status.owner != authority ==> r == Err::<(), PlinkoError>(PlinkoError::OnlyOwner),
        status.owner == authority && old(house).balance < amount ==> r == Err::<(), PlinkoError>(
            PlinkoError::InsufficientFunds,
        ),
        r is Err ==> *final(house) == *old(house),
        r is Ok ==> *final(house) == (House {
            balance: (old(house).balance - amount) as u64,
            ..*old(house)
        }),
{
    if !status.is_owner(&authority) {
        return Err(PlinkoError::OnlyOwner);
    }
    if house.balance < amount {
        return Err(PlinkoError::InsufficientFunds);
    }
    house.balance = house.balance - amount;
    Ok(())
}

} // verus!
