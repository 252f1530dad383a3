use vstd::prelude::*;

use vstd::arithmetic::div_mod::{lemma_div_by_multiple, lemma_div_is_ordered, lemma_div_pos_is_pos};
use vstd::arithmetic::mul::{lemma_mul_left_inequality, lemma_mul_nonnegative, lemma_mul_upper_bound};

use crate::account::{
    request_id_of, zero_player, Game, House, PlayerId, PlinkoStatus, Status, UserStats,
    FEE_DENOMINATOR,
};
use crate::errors::PlinkoError;

verus! {

/// The whole wager: bet per ball times ball count.
pub open spec fn total_bet_of(bet: u64, balls: u8) -> int {
    bet * balls
}

/// The platform fee taken off the wager, truncated.
pub open spec fn fee_of(status: PlinkoStatus, bet: u64, balls: u8) -> int {
    total_bet_of(bet, balls) * status.platform_fee / (FEE_DENOMINATOR as int)
}

/// The stake escrowed with the house: the wager minus the platform fee.
pub open spec fn house_stake_of(status: PlinkoStatus, bet: u64, balls: u8) -> int {
    total_bet_of(bet, balls) - fee_of(status, bet, balls)
}

/// The stake put at risk per ball, truncated.
pub open spec fn per_ball_stake_of(status: PlinkoStatus, bet: u64, balls: u8) -> int {
    house_stake_of(status, bet, balls) / (balls as int)
}

/// The stats record is untouched so far: no account owns it yet.
pub open spec fn fresh_stats(stats: UserStats) -> bool {
    stats.user == zero_player()
}

/// The wager is accepted: the engine is live, the odds table filled, the
/// ball count within bounds, the player solvent for the buy-in and the
/// wager, and the wager leaves a positive stake per ball after the fee.
pub open spec fn open_accepted(
    status: PlinkoStatus,
    player_balance: u64,
    balls: u8,
    bet: u64,
) -> bool {
    &&& !status.paused
    &&& status.bucket_weights@.len() > 0
    &&& 0 < balls <= status.max_balls
    &&& player_balance >= status.min_buy_in
    &&& bet > 0
    &&& total_bet_of(bet, balls) <= player_balance
    &&& bet >= status.min_buy_in
    &&& per_ball_stake_of(status, bet, balls) > 0
}

/// The first rejection the wager runs into.
pub open spec fn open_error(
    status: PlinkoStatus,
    player_balance: u64,
    balls: u8,
    bet: u64,
) -> PlinkoError {
    if status.paused {
        PlinkoError::GamePaused
    } else if status.bucket_weights@.len() == 0 {
        PlinkoError::InvalidBucketIndex
    } else if !(0 < balls <= status.max_balls) {
        PlinkoError::InvalidNumberOfBalls
    } else if player_balance < status.min_buy_in {
        PlinkoError::InvalidValue
    } else {
        PlinkoError::InvalidBetAmount
    }
}

/// The fee never exceeds the wager it is taken from.
proof fn lemma_fee_le_total(total: int, fee_bps: int)
    requires
        0 <= total,
        0 <= fee_bps <= FEE_DENOMINATOR,
    ensures
        0 <= total * fee_bps / (FEE_DENOMINATOR as int) <= total,
{
    let d = FEE_DENOMINATOR as int;
    lemma_mul_nonnegative(total, fee_bps);
    lemma_div_pos_is_pos(total * fee_bps, d);
    if total > 0 {
        lemma_mul_left_inequality(total, fee_bps, d);
    }
    lemma_div_is_ordered(total * fee_bps, total * d, d);
    lemma_div_by_multiple(total, d);
}

/// Phase 1 — open a game. Validate the wager, compute the fee and the house
/// stake, escrow the stake with the bankroll, commit to the randomness
/// request, create the ledger record and update the running totals. The
/// caller performs the two transfers (fee to the sink, stake to the escrow)
/// and files the oracle request for `force`; `now` is the current timestamp
/// and `player_balance` the player's available funds.
#[verifier::loop_isolation(false)]
pub fn handler(
    status: &mut PlinkoStatus,
    house: &mut House,
    user_stats: &mut UserStats,
    player: PlayerId,
    player_balance: u64,
    force: [u8; 32],
    game_id: u64,
    num_balls: u8,
    user_bet_amount: u64,
    now: i64,
) -> (r: Result<Game, PlinkoError>)
    requires
        old(status).wf(),
        fresh_stats(*old(user_stats)) || (old(user_stats).user == player && old(user_stats).wf()
            && old(user_stats).game_ids@.len() < 100),
        old(status).total_games < u64::MAX,
        old(house).pending_request < u32::MAX,
        open_accepted(*old(status), player_balance, num_balls, user_bet_amount) ==> {
            &&& old(status).total_volume + total_bet_of(user_bet_amount, num_balls) <= u64::MAX
            &&& old(house).balance + house_stake_of(*old(status), user_bet_amount, num_balls)
                <= u64::MAX
            &&& !fresh_stats(*old(user_stats)) ==> old(user_stats).total_wagered + total_bet_of(
                user_bet_amount,
                num_balls,
            ) <= u64::MAX
        },
    ensures
        r is Ok <==> open_accepted(*old(status), player_balance, num_balls, user_bet_amount),
        !open_accepted(*old(status), player_balance, num_balls, user_bet_amount) ==> {
            &&& (r matches Err(e) && e == open_error(
                *old(status),
                player_balance,
                num_balls,
                user_bet_amount,
            ))
            &&& *final(status) == *old(status)
            &&& *final(house) == *old(house)
            &&& *final(user_stats) == *old(user_stats)
        },
        r matches Ok(g) ==> {
            let total = total_bet_of(user_bet_amount, num_balls);
            let stake = house_stake_of(*old(status), user_bet_amount, num_balls);
            &&& g.game_id == game_id
            &&& g.player == player
            &&& g.bet_amount == total
            &&& g.amount_for_house == stake
            &&& g.num_balls == num_balls
            &&& g.bet_amount_per_ball == per_ball_stake_of(
                *old(status),
                user_bet_amount,
                num_balls,
            )
            &&& g.buckets@ =~= Seq::new(num_balls as nat, |i: int| 0u8)
            &&& g.payout == 0
            &&& !g.has_ended
            &&& g.request_id == request_id_of(
                game_id,
                player.w0,
                player.w1,
                player.w2,
                player.w3,
                now,
            )
            &&& g.created_at == now
            &&& g.ended_at == 0
            &&& *final(status) == (PlinkoStatus {
                total_games: (old(status).total_games + 1) as u64,
                total_volume: (old(status).total_volume + total) as u64,
                force,
                status: Status::Processing,
                ..*old(status)
            })
            &&& *final(house) == (House {
                balance: (old(house).balance + stake) as u64,
                pending_request: (old(house).pending_request + 1) as u32,
                ..*old(house)
            })
            &&& final(user_stats).user == player
            &&& final(user_stats).total_games == (if fresh_stats(*old(user_stats)) {
                1int
            } else {
                old(user_stats).total_games + 1
            })
            &&& final(user_stats).total_wagered == (if fresh_stats(*old(user_stats)) {
                total
            } else {
                old(user_stats).total_wagered + total
            })
            &&& final(user_stats).total_won == (if fresh_stats(*old(user_stats)) {
                0int
            } else {
                old(user_stats).total_won as int
            })
            &&& final(user_stats).game_ids@ =~= (if fresh_stats(*old(user_stats)) {
                seq![game_id]
            } else {
                old(user_stats).game_ids@.push(game_id)
            })
            &&& final(user_stats).wf()
        },
{
    if status.paused {
        return Err(PlinkoError::GamePaused);
    }
    if status.bucket_weights.len() == 0 {
        return Err(PlinkoError::InvalidBucketIndex);
    }
    if num_balls == 0 || num_balls > status.max_balls {
        return Err(PlinkoError::InvalidNumberOfBalls);
    }
    if player_balance < status.min_buy_in {
        return Err(PlinkoError::InvalidValue);
    }
    proof {
        lemma_mul_upper_bound(user_bet_amount as int, u64::MAX as int, num_balls as int, 255);
    }
    let total128: u128 = (user_bet_amount as u128) * (num_balls as u128);
    if user_bet_amount == 0 || total128 > (player_balance as u128) || user_bet_amount
        < status.min_buy_in {
        return Err(PlinkoError::InvalidBetAmount);
    }
    let total_bet: u64 = total128 as u64;
    proof {
        lemma_mul_upper_bound(total_bet as int, u64::MAX as int, status.platform_fee as int, 500);
        lemma_fee_le_total(total_bet as int, status.platform_fee as int);
    }
    let fee128: u128 = (total_bet as u128) * (status.platform_fee as u128);
    let platform_fee_amount: u64 = (fee128 / (FEE_DENOMINATOR as u128)) as u64;
    let amount_for_house: u64 = total_bet - platform_fee_amount;
    let bet_amount_per_ball: u64 = amount_for_house / (num_balls as u64);
    if bet_amount_per_ball == 0 {
        return Err(PlinkoError::InvalidBetAmount);
    }
    let request_id = status.generate_request_id(game_id, &player, now);

    status.force = force;
    status.status = Status::Processing;
    status.total_games = status.total_games + 1;
    status.total_volume = status.total_volume + total_bet;

    let zero = PlayerId { w0: 0, w1: 0, w2: 0, w3: 0 };
    if user_stats.user == zero {
        user_stats.user = player;
        user_stats.total_games = 0;
        user_stats.total_wagered = 0;
        user_stats.total_won = 0;
        user_stats.game_ids = Vec::new();
    }
    user_stats.total_games = user_stats.total_games + 1;
    user_stats.total_wagered = user_stats.total_wagered + total_bet;
    user_stats.game_ids.push(game_id);

    house.balance = house.balance + amount_for_house;
    house.pending_request = house.pending_request + 1;

    let mut buckets: Vec<u8> = Vec::new();
    let mut i: usize = 0;
    while i < num_balls as usize
        invariant
            i <= num_balls as usize,
            buckets@.len() == i,
            forall|j: int| 0 <= j < i ==> buckets@[j] == 0u8,
        decreases num_balls as usize - i,
    {
        buckets.push(0);
        i = i + 1;
    }
    proof {
        assert(buckets@ =~= Seq::new(num_balls as nat, |j: int| 0u8));
    }
    Ok(
        Game {
            game_id,
            player,
            bet_amount: total_bet,
            amount_for_house,
            num_balls,
            bet_amount_per_ball,
            buckets,
            payout: 0,
            has_ended: false,
            request_id,
            created_at: now,
            ended_at: 0,
        },
    )
}

/// Sum of the escrowed house stakes of a set of open games.
pub open spec fn sum_stakes(stakes: Seq<u64>) -> int
    decreases stakes.len(),
{
    if stakes.len() == 0 {
        0
    } else {
        sum_stakes(stakes.drop_last()) + stakes.last()
    }
}

/// Law: while games are only opened, the bankroll balance equals the sum of
/// the escrowed house stakes of the open games, and the pending-request
/// count equals their number. Opening one more game, which credits its
/// stake and bumps the count as `handler` ensures, preserves both.
pub proof fn lemma_open_games_accounting(stakes: Seq<u64>, before: House, after: House, stake: u64)
    requires
        before.balance == sum_stakes(stakes),
        before.pending_request == stakes.len(),
        after.balance == before.balance + stake,
        after.pending_request == before.pending_request + 1,
    ensures
        after.balance == sum_stakes(stakes.push(stake)),
        after.pending_request == stakes.push(stake).len(),
{
    assert(stakes.push(stake).drop_last() =~= stakes);
}

} // verus!
