use vstd::prelude::*;

use vstd::arithmetic::div_mod::{lemma_div_by_multiple, lemma_div_is_ordered, lemma_div_pos_is_pos};
use vstd::arithmetic::mul::{lemma_mul_inequality, lemma_mul_left_inequality, lemma_mul_nonnegative};

use crate::account::{
    ball_random_of, lemma_bucket_partition, Game, House, PlinkoStatus, Status, UserStats,
    MAX_MULTIPLIER, PAYOUT_DENOMINATOR,
};
use crate::errors::PlinkoError;

verus! {

/// Bucket ball `i` resolves to when the oracle answered `randomness`.
pub open spec fn outcome_bucket(status: PlinkoStatus, randomness: u64, i: int) -> int {
    status.resolved_bucket(ball_random_of(randomness, i as usize))
}

/// Payout of ball `i` for the stake put at risk per ball.
pub open spec fn ball_payout(status: PlinkoStatus, bet: u64, randomness: u64, i: int) -> int {
    status.payout_amount_spec(bet, outcome_bucket(status, randomness, i))
}

/// Total payout of the first `n` balls.
pub open spec fn payout_sum(status: PlinkoStatus, bet: u64, randomness: u64, n: int) -> int
    decreases n,
{
    if n <= 0 {
        0
    } else {
        payout_sum(status, bet, randomness, n - 1) + ball_payout(status, bet, randomness, n - 1)
    }
}

/// The whole payout a game resolves to.
pub open spec fn game_payout(status: PlinkoStatus, game: Game, randomness: u64) -> int {
    payout_sum(status, game.bet_amount_per_ball, randomness, game.num_balls as int)
}

/// The degraded branch fires: the computed payout reaches the escrowed
/// stake but the bankroll cannot cover it in full, so the player is
/// refunded the original wager instead.
pub open spec fn degraded(status: PlinkoStatus, game: Game, house: House, randomness: u64) -> bool {
    &&& game_payout(status, game, randomness) >= game.amount_for_house
    &&& house.balance < game_payout(status, game, randomness)
}

/// What the player is paid: the computed payout, or the original wager in
/// the degraded branch.
pub open spec fn resolve_paid(
    status: PlinkoStatus,
    game: Game,
    house: House,
    randomness: u64,
) -> int {
    if degraded(status, game, house, randomness) {
        game.bet_amount as int
    } else {
        game_payout(status, game, randomness)
    }
}

/// The resolution goes through: the game is still open, the caller answers
/// the committed request, the oracle has produced a value, the odds table
/// can resolve buckets, and the bankroll covers what is to be paid.
pub open spec fn resolve_accepted(
    status: PlinkoStatus,
    game: Game,
    house: House,
    randomness: u64,
    request_id: u64,
) -> bool {
    &&& !game.has_ended
    &&& game.request_id == request_id
    &&& randomness != 0
    &&& status.max_bucket_value_spec() != 0
    &&& house.balance >= resolve_paid(status, game, house, randomness)
}

/// The first rejection the resolution runs into.
pub open spec fn resolve_error(
    status: PlinkoStatus,
    game: Game,
    house: House,
    randomness: u64,
    request_id: u64,
) -> PlinkoError {
    if game.has_ended {
        PlinkoError::GameAlreadyEnded
    } else if game.request_id != request_id {
        PlinkoError::InvalidRequestId
    } else if randomness == 0 {
        PlinkoError::StillProcessing
    } else if status.max_bucket_value_spec() == 0 {
        PlinkoError::InvalidBucketIndex
    } else {
        PlinkoError::InsufficientFunds
    }
}

/// One ball's payout never exceeds the per-ball stake scaled by the
/// multiplier cap.
proof fn lemma_ball_payout_bound(bet: int, mult: int)
    requires
        0 <= bet,
        0 <= mult <= MAX_MULTIPLIER,
    ensures
        0 <= bet * mult / (PAYOUT_DENOMINATOR as int) <= bet * 100_000,
{
    let d = PAYOUT_DENOMINATOR as int;
    lemma_mul_nonnegative(bet, mult);
    lemma_div_pos_is_pos(bet * mult, d);
    if bet > 0 {
        lemma_mul_left_inequality(bet, mult, MAX_MULTIPLIER as int);
    }
    lemma_div_is_ordered(bet * mult, bet * (MAX_MULTIPLIER as int), d);
    assert(bet * (MAX_MULTIPLIER as int) == (bet * 100_000) * d);
    lemma_div_by_multiple(bet * 100_000, d);
}

/// Phase 2 — resolve a game once the oracle has answered. Derive one
/// outcome per ball from `randomness`, resolve each to a bucket and a
/// payout, reconcile funds with the bankroll in one of three exclusive
/// branches, and close the ledger record. Returns the amount the caller
/// must transfer from the escrow to the player. Retryable only while the
/// oracle's value is still zero; a resolved game can never be resolved
/// again.
#[verifier::loop_isolation(false)]
pub fn handler(
    status: &mut PlinkoStatus,
    game: &mut Game,
    house: &mut House,
    user_stats: &mut UserStats,
    randomness: u64,
    request_id: u64,
    now: i64,
) -> (r: Result<u64, PlinkoError>)
    requires
        old(status).wf(),
        forall|i: int| 0 <= i < old(status).payouts@.len() ==> old(game).bet_amount_per_ball * old(
            status,
        ).payouts@[i] <= u64::MAX,
        old(user_stats).total_won + old(game).num_balls * (old(game).bet_amount_per_ball * 100_000)
            <= u64::MAX,
        old(status).total_payouts + old(game).num_balls * (old(game).bet_amount_per_ball * 100_000)
            <= u64::MAX,
        old(house).total_payout + old(game).amount_for_house <= u64::MAX,
    ensures
        r is Ok <==> resolve_accepted(*old(status), *old(game), *old(house), randomness, request_id),
        !resolve_accepted(*old(status), *old(game), *old(house), randomness, request_id) ==> {
            &&& (r matches Err(e) && e == resolve_error(
                *old(status),
                *old(game),
                *old(house),
                randomness,
                request_id,
            ))
            &&& *final(status) == *old(status)
            &&& *final(game) == *old(game)
            &&& *final(house) == *old(house)
            &&& *final(user_stats) == *old(user_stats)
        },
        r matches Ok(paid) ==> {
            let pay = game_payout(*old(status), *old(game), randomness);
            &&& paid == resolve_paid(*old(status), *old(game), *old(house), randomness)
            &&& final(game).has_ended
            &&& final(game).payout == pay
            &&& final(game).buckets@ =~= Seq::new(
                old(game).num_balls as nat,
                |i: int| outcome_bucket(*old(status), randomness, i) as u8,
            )
            &&& final(game).ended_at == now
            &&& final(game).game_id == old(game).game_id
            &&& final(game).player == old(game).player
            &&& final(game).bet_amount == old(game).bet_amount
            &&& final(game).amount_for_house == old(game).amount_for_house
            &&& final(game).num_balls == old(game).num_balls
            &&& final(game).bet_amount_per_ball == old(game).bet_amount_per_ball
            &&& final(game).request_id == old(game).request_id
            &&& final(game).created_at == old(game).created_at
            &&& *final(user_stats) == (UserStats {
                total_won: (old(user_stats).total_won + pay) as u64,
                ..*old(user_stats)
            })
            &&& *final(status) == (PlinkoStatus {
                total_payouts: (old(status).total_payouts + pay) as u64,
                status: Status::Finished,
                ..*old(status)
            })
            &&& final(house).balance == old(house).balance - paid
            &&& final(house).total_payout == (if pay >= old(game).amount_for_house && old(
                house,
            ).balance >= pay {
                old(house).total_payout + old(game).amount_for_house
            } else {
                old(house).total_payout as int
            })
            &&& final(house).pending_request == (if old(house).pending_request > 0 {
                old(house).pending_request - 1
            } else {
                0int
            })
            &&& final(house).owner == old(house).owner
            &&& final(house).maximum_payout == old(house).maximum_payout
            &&& final(house).withdrawals_pause == old(house).withdrawals_pause
        },
{
    if game.has_ended {
        return Err(PlinkoError::GameAlreadyEnded);
    }
    if game.request_id != request_id {
        return Err(PlinkoError::InvalidRequestId);
    }
    if randomness == 0 {
        return Err(PlinkoError::StillProcessing);
    }
    let max_bucket = status.max_bucket_value();
    if max_bucket == 0 {
        return Err(PlinkoError::InvalidBucketIndex);
    }

    let ball_amount: u8 = game.num_balls;
    let randoms: Vec<u16> = status.derive_many_randoms(randomness, ball_amount as usize);
    let bet = game.bet_amount_per_ball;
    let mut buckets: Vec<u8> = Vec::new();
    let mut total_payout: u64 = 0;
    let mut i: usize = 0;
    while i < ball_amount as usize
        invariant
            i <= ball_amount as usize,
            buckets@.len() == i,
            forall|j: int|
                0 <= j < i ==> buckets@[j] == (outcome_bucket(*old(status), randomness, j) as u8),
            total_payout == payout_sum(*old(status), bet, randomness, i as int),
            total_payout <= i * (bet * 100_000),
        decreases ball_amount as usize - i,
    {
        let rand_i: u16 = randoms[i];
        proof {
            lemma_bucket_partition(
                status.bucket_weights@,
                (rand_i as int) % (status.max_bucket_value_spec() as int),
            );
        }
        let bucket_index: u8 = match status.get_bucket_index(rand_i) {
            Ok(b) => b,
            Err(e) => {
                return Err(e);
            },
        };
        let ball_payout_amt: u64 = match status.get_payout_amount(bet, bucket_index) {
            Ok(p) => p,
            Err(e) => {
                return Err(e);
            },
        };
        proof {
            lemma_ball_payout_bound(
                bet as int,
                status.payouts@[outcome_bucket(*old(status), randomness, i as int)] as int,
            );
            assert((i + 1) * (bet * 100_000) == i * (bet * 100_000) + bet * 100_000)
                by (nonlinear_arith);
            lemma_mul_inequality(i + 1, ball_amount as int, (bet * 100_000) as int);
        }
        total_payout = total_payout + ball_payout_amt;
        buckets.push(bucket_index);
        i = i + 1;
    }

    let win = total_payout >= game.amount_for_house;
    let degraded_case = win && house.balance < total_payout;
    let paid: u64;
    if degraded_case {
        if house.balance < game.bet_amount {
            return Err(PlinkoError::InsufficientFunds);
        }
        paid = game.bet_amount;
    } else if win {
        paid = total_payout;
    } else {
        if house.balance < total_payout {
            return Err(PlinkoError::InsufficientFunds);
        }
        paid = total_payout;
    }

    if win && !degraded_case {
        house.total_payout = house.total_payout + game.amount_for_house;
    }
    game.buckets = buckets;
    game.payout = total_payout;
    game.has_ended = true;
    game.ended_at = now;
    user_stats.total_won = user_stats.total_won + total_payout;
    status.total_payouts = status.total_payouts + total_payout;
    status.status = Status::Finished;
    house.balance = house.balance - paid;
    house.pending_request = if house.pending_request > 0 {
        house.pending_request - 1
    } else {
        0
    };
    Ok(paid)
}

/// Law: funds are conserved across one game's settlement. Whatever the
/// branch, what the player paid in (the whole wager) equals the fee kept
/// by the sink, plus what was paid back to the player, plus the bankroll's
/// net gain over the open/resolve cycle.
pub proof fn lemma_funds_conservation(
    before_open: House,
    after_open: House,
    after_resolve: House,
    game: Game,
    fee: int,
    paid: int,
)
    requires
        game.amount_for_house == game.bet_amount - fee,
        after_open.balance == before_open.balance + game.amount_for_house,
        after_resolve.balance == after_open.balance - paid,
    ensures
        fee + paid + (after_resolve.balance - before_open.balance) == game.bet_amount,
{
}

} // verus!
