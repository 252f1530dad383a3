use vstd::prelude::*;

use crate::account::{House, PlayerId, PlinkoStatus, Status, FEE_DENOMINATOR, PAYOUT_DENOMINATOR};
use crate::errors::PlinkoError;

verus! {

/// The one-time setup is accepted: the fee is at most 300 basis points, at
/// most 60 balls may be played per game, and the buy-in floor is positive.
pub open spec fn init_accepted(platform_fee: u64, min_buy_in: u64, max_balls: u8) -> bool {
    platform_fee <= 300 && max_balls <= 60 && min_buy_in > 0
}

/// The first rejection the setup runs into.
pub open spec fn init_error(platform_fee: u64, min_buy_in: u64, max_balls: u8) -> PlinkoError {
    if platform_fee > 300 {
        PlinkoError::PlatformFeeTooHigh
    } else if max_balls > 60 {
        PlinkoError::MaxBallsTooHigh
    } else {
        PlinkoError::InvalidValue
    }
}

/// One-time setup of the engine: build the configuration record and the
/// empty bankroll, both owned by `authority`. The odds table starts empty
/// and unlocked; no game can open until `set_payout` fills it.
pub fn handler(
    authority: PlayerId,
    fee_treasury: PlayerId,
    house_account: PlayerId,
    platform_fee: u64,
    min_buy_in: u64,
    max_balls: u8,
) -> (r: Result<(PlinkoStatus, House), PlinkoError>)
    ensures
        r is Ok <==> init_accepted(platform_fee, min_buy_in, max_balls),
        !init_accepted(platform_fee, min_buy_in, max_balls) ==> (r matches Err(e) && e
            == init_error(platform_fee, min_buy_in, max_balls)),
        r matches Ok(out) ==> {
            let (status, house) = out;
            &&& status.wf()
            &&& status.owner == authority
            &&& status.platform_fee == platform_fee
            &&& status.fee_denominator == FEE_DENOMINATOR
            &&& status.payout_denominator == PAYOUT_DENOMINATOR
            &&& status.min_buy_in == min_buy_in
            &&& status.max_balls == max_balls
            &&& !status.odds_locked
            &&& !status.paused
            &&& status.bucket_weights@ =~= Seq::<u64>::empty()
            &&& status.payouts@ =~= Seq::<u64>::empty()
            &&& status.total_games == 0
            &&& status.total_volume == 0
            &&& status.total_payouts == 0
            &&& status.fee_treasury == fee_treasury
            &&& status.house_account == house_account
            &&& status.status == Status::Waiting
            &&& house.owner == authority
            &&& house.balance == 0
            &&& house.maximum_payout == 100
            &&& house.total_payout == 0
            &&& !house.withdrawals_pause
            &&& house.pending_request == 0
        },
{
    if platform_fee > 300 {
        return Err(PlinkoError::PlatformFeeTooHigh);
    }
    if max_balls > 60 {
        return Err(PlinkoError::MaxBallsTooHigh);
    }
    if min_buy_in == 0 {
        return Err(PlinkoError::InvalidValue);
    }
    let status = PlinkoStatus {
        owner: authority,
        platform_fee,
        fee_denominator: FEE_DENOMINATOR,
        payout_denominator: PAYOUT_DENOMINATOR,
        min_buy_in,
        max_balls,
        odds_locked: false,
        paused: false,
        bucket_weights: Vec::new(),
        payouts: Vec::new(),
        total_games: 0,
        total_volume: 0,
        total_payouts: 0,
        fee_treasury,
        house_account,
        force: [0; 32],
        status: Status::Waiting,
    };
    let house = House {
        owner: authority,
        balance: 0,
        maximum_payout: 100,
        total_payout: 0,
        withdrawals_pause: false,
        pending_request: 0,
    };
    Ok((status, house))
}

} // verus!
