use plinko_core::account::{House, PlayerId, PlinkoStatus, UserStats};
use plinko_core::errors::PlinkoError;
use plinko_core::instructions::{
    fulfill_random_words, initialize, lock_odds, play_game, set_max_balls, set_min_buy_in,
    set_paused, set_payout, set_platform_fee, withdraw_from_vault,
};

fn owner() -> PlayerId {
    PlayerId { w0: 1, w1: 1, w2: 1, w3: 1 }
}

fn player() -> PlayerId {
    PlayerId { w0: 2, w1: 3, w2: 4, w3: 5 }
}

fn stranger() -> PlayerId {
    PlayerId { w0: 9, w1: 9, w2: 9, w3: 9 }
}

fn fresh_stats() -> UserStats {
    UserStats {
        user: PlayerId { w0: 0, w1: 0, w2: 0, w3: 0 },
        total_games: 0,
        total_wagered: 0,
        total_won: 0,
        game_ids: Vec::new(),
    }
}

/// Engine with fee 300 bps, min buy-in 1000, max 60 balls, and the odds
/// table boundaries [10, 20, 30] with multipliers [500, 100, 50].
fn engine() -> (PlinkoStatus, House) {
    let (mut status, house) = initialize::handler(owner(), owner(), owner(), 300, 1000, 60)
        .unwrap();
    set_payout::handler(&mut status, owner(), vec![10, 20, 30], vec![500, 100, 50]).unwrap();
    (status, house)
}

/// Engine whose every bucket pays the 100x cap, so any resolution is a win.
fn all_win_engine() -> (PlinkoStatus, House) {
    let (mut status, house) = initialize::handler(owner(), owner(), owner(), 300, 1000, 60)
        .unwrap();
    set_payout::handler(
        &mut status,
        owner(),
        vec![10, 20, 30],
        vec![10_000_000, 10_000_000, 10_000_000],
    )
    .unwrap();
    (status, house)
}

/// Engine whose every bucket pays half the bet, so any resolution loses.
fn all_lose_engine() -> (PlinkoStatus, House) {
    let (mut status, house) = initialize::handler(owner(), owner(), owner(), 300, 1000, 60)
        .unwrap();
    set_payout::handler(&mut status, owner(), vec![10, 20, 30], vec![50, 50, 50]).unwrap();
    (status, house)
}

#[test]
fn initialize_rejects_bad_config() {
    assert!(matches!(
        initialize::handler(owner(), owner(), owner(), 301, 1000, 60),
        Err(PlinkoError::PlatformFeeTooHigh)
    ));
    assert!(matches!(
        initialize::handler(owner(), owner(), owner(), 300, 1000, 61),
        Err(PlinkoError::MaxBallsTooHigh)
    ));
    assert!(matches!(
        initialize::handler(owner(), owner(), owner(), 300, 0, 60),
        Err(PlinkoError::InvalidValue)
    ));
}

#[test]
fn initialize_builds_empty_engine() {
    let (status, house) = initialize::handler(owner(), owner(), owner(), 300, 1000, 60).unwrap();
    assert_eq!(status.fee_denominator, 10_000);
    assert_eq!(status.payout_denominator, 100);
    assert!(status.bucket_weights.is_empty());
    assert!(status.payouts.is_empty());
    assert!(!status.odds_locked);
    assert!(!status.paused);
    assert_eq!(house.balance, 0);
    assert_eq!(house.pending_request, 0);
}

#[test]
fn set_payout_validates_table() {
    let (mut status, _) = initialize::handler(owner(), owner(), owner(), 300, 1000, 60).unwrap();
    assert!(matches!(
        set_payout::handler(&mut status, stranger(), vec![10], vec![100]),
        Err(PlinkoError::OnlyOwner)
    ));
    assert!(matches!(
        set_payout::handler(&mut status, owner(), vec![10, 20], vec![100]),
        Err(PlinkoError::InvalidLength)
    ));
    assert!(matches!(
        set_payout::handler(&mut status, owner(), vec![], vec![]),
        Err(PlinkoError::InvalidLength)
    ));
    assert!(matches!(
        set_payout::handler(&mut status, owner(), vec![1; 101], vec![1; 101]),
        Err(PlinkoError::InvalidLength)
    ));
    assert!(matches!(
        set_payout::handler(&mut status, owner(), vec![10, 10], vec![100, 100]),
        Err(PlinkoError::InvalidBucketIndex)
    ));
    assert!(matches!(
        set_payout::handler(&mut status, owner(), vec![10, 20], vec![100, 10_000_001]),
        Err(PlinkoError::InvalidBucketIndex)
    ));
    assert!(status.bucket_weights.is_empty(), "a rejected table must leave the old one");
    set_payout::handler(&mut status, owner(), vec![10, 20, 30], vec![500, 100, 50]).unwrap();
    assert_eq!(status.bucket_weights, vec![10, 20, 30]);
    assert_eq!(status.payouts, vec![500, 100, 50]);
}

#[test]
fn lock_odds_is_one_way() {
    let (mut status, _) = engine();
    assert!(matches!(
        lock_odds::handler(&mut status, stranger()),
        Err(PlinkoError::OnlyOwner)
    ));
    lock_odds::handler(&mut status, owner()).unwrap();
    assert!(status.odds_locked);
    lock_odds::handler(&mut status, owner()).unwrap();
    assert!(status.odds_locked, "locking is idempotent");
    assert!(matches!(
        set_payout::handler(&mut status, owner(), vec![10], vec![100]),
        Err(PlinkoError::OddsLocked)
    ));
}

#[test]
fn owner_tuning() {
    let (mut status, _) = engine();
    assert!(matches!(
        set_platform_fee::handler(&mut status, owner(), 501),
        Err(PlinkoError::PlatformFeeTooHigh)
    ));
    set_platform_fee::handler(&mut status, owner(), 500).unwrap();
    assert_eq!(status.platform_fee, 500);
    assert!(matches!(
        set_min_buy_in::handler(&mut status, owner(), 0),
        Err(PlinkoError::InvalidValue)
    ));
    set_min_buy_in::handler(&mut status, owner(), 5).unwrap();
    assert_eq!(status.min_buy_in, 5);
    assert!(matches!(
        set_max_balls::handler(&mut status, owner(), 101),
        Err(PlinkoError::MaxBallsTooHigh)
    ));
    set_max_balls::handler(&mut status, owner(), 100).unwrap();
    assert_eq!(status.max_balls, 100);
    assert!(matches!(
        set_paused::handler(&mut status, stranger(), true),
        Err(PlinkoError::OnlyOwner)
    ));
    set_paused::handler(&mut status, owner(), true).unwrap();
    assert!(status.paused);
}

/// Scenario: min buy-in 1000, fee 300 bps, bet 1000 per ball on 2 balls.
#[test]
fn open_game_fee_breakdown() {
    let (mut status, mut house) = engine();
    let mut stats = fresh_stats();
    let game = play_game::handler(
        &mut status,
        &mut house,
        &mut stats,
        player(),
        10_000,
        [7; 32],
        1,
        2,
        1000,
        500,
    )
    .unwrap();
    assert_eq!(game.bet_amount, 2000);
    assert_eq!(game.bet_amount - game.amount_for_house, 60, "fee of 300 bps on 2000");
    assert_eq!(game.amount_for_house, 1940);
    assert_eq!(game.bet_amount_per_ball, 970);
    assert_eq!(game.num_balls, 2);
    assert_eq!(game.buckets, vec![0, 0]);
    assert!(!game.has_ended);
    assert_eq!(game.created_at, 500);
    assert_eq!(house.balance, 1940);
    assert_eq!(house.pending_request, 1);
    assert_eq!(status.total_games, 1);
    assert_eq!(status.total_volume, 2000);
    assert_eq!(stats.user, player());
    assert_eq!(stats.total_games, 1);
    assert_eq!(stats.total_wagered, 2000);
    assert_eq!(stats.game_ids, vec![1]);
}

#[test]
fn open_game_rejections() {
    let (mut status, mut house) = engine();
    let mut stats = fresh_stats();
    set_paused::handler(&mut status, owner(), true).unwrap();
    assert!(matches!(
        play_game::handler(
            &mut status, &mut house, &mut stats, player(), 10_000, [0; 32], 1, 2, 1000, 0
        ),
        Err(PlinkoError::GamePaused)
    ));
    set_paused::handler(&mut status, owner(), false).unwrap();
    assert!(matches!(
        play_game::handler(
            &mut status, &mut house, &mut stats, player(), 10_000, [0; 32], 1, 0, 1000, 0
        ),
        Err(PlinkoError::InvalidNumberOfBalls)
    ));
    assert!(matches!(
        play_game::handler(
            &mut status, &mut house, &mut stats, player(), 10_000, [0; 32], 1, 61, 1000, 0
        ),
        Err(PlinkoError::InvalidNumberOfBalls)
    ));
    assert!(matches!(
        play_game::handler(
            &mut status, &mut house, &mut stats, player(), 999, [0; 32], 1, 2, 1000, 0
        ),
        Err(PlinkoError::InvalidValue)
    ));
    assert!(matches!(
        play_game::handler(
            &mut status, &mut house, &mut stats, player(), 10_000, [0; 32], 1, 2, 0, 0
        ),
        Err(PlinkoError::InvalidBetAmount)
    ));
    assert!(matches!(
        play_game::handler(
            &mut status, &mut house, &mut stats, player(), 10_000, [0; 32], 1, 2, 6000, 0
        ),
        Err(PlinkoError::InvalidBetAmount)
    ));
    assert!(matches!(
        play_game::handler(
            &mut status, &mut house, &mut stats, player(), 10_000, [0; 32], 1, 2, 999, 0
        ),
        Err(PlinkoError::InvalidBetAmount)
    ));
    assert_eq!(house.balance, 0, "a rejected wager moves nothing");
    assert_eq!(house.pending_request, 0);
    assert_eq!(status.total_games, 0);
    assert_eq!(stats.total_games, 0);
}

#[test]
fn open_game_rejects_empty_table() {
    let (mut status, mut house) = initialize::handler(owner(), owner(), owner(), 300, 1000, 60)
        .unwrap();
    let mut stats = fresh_stats();
    assert!(matches!(
        play_game::handler(
            &mut status, &mut house, &mut stats, player(), 10_000, [0; 32], 1, 2, 1000, 0
        ),
        Err(PlinkoError::InvalidBucketIndex)
    ));
}

#[test]
fn open_game_rejects_zero_stake_per_ball() {
    let (mut status, mut house) = engine();
    set_min_buy_in::handler(&mut status, owner(), 1).unwrap();
    let mut stats = fresh_stats();
    // total 40, fee 40*300/10000 = 1, stake 39, stake per ball 39/40 = 0
    assert!(matches!(
        play_game::handler(
            &mut status, &mut house, &mut stats, player(), 10_000, [0; 32], 1, 40, 1, 0
        ),
        Err(PlinkoError::InvalidBetAmount)
    ));
}

/// Opening games without resolving them keeps the bankroll balance equal to
/// the sum of the escrowed stakes, and the pending count equal to the
/// number of open games.
#[test]
fn open_games_escrow_accounting() {
    let (mut status, mut house) = engine();
    let mut stats = fresh_stats();
    let g1 = play_game::handler(
        &mut status, &mut house, &mut stats, player(), 100_000, [0; 32], 1, 2, 1000, 0,
    )
    .unwrap();
    let g2 = play_game::handler(
        &mut status, &mut house, &mut stats, player(), 100_000, [0; 32], 2, 3, 2000, 0,
    )
    .unwrap();
    assert_eq!(house.balance, g1.amount_for_house + g2.amount_for_house);
    assert_eq!(house.pending_request, 2);
    assert_eq!(stats.total_games, 2);
    assert_eq!(stats.game_ids, vec![1, 2]);
}

/// Scenario: boundaries [10, 20, 30], multipliers [500, 100, 50], raw
/// outcome 25: 25 % 30 = 25 lands in bucket 2, paying bet * 50 / 100.
#[test]
fn bucket_resolution_scenario() {
    let (status, _) = engine();
    assert_eq!(status.max_bucket_value(), 30);
    assert_eq!(status.get_bucket_index(25), Ok(2));
    assert_eq!(status.get_payout_amount(1000, 2), Ok(500));
}

/// The whole domain below the last boundary maps onto the buckets with no
/// gaps and no overlaps.
#[test]
fn bucket_resolution_partitions_domain() {
    let (status, _) = engine();
    for r in 0u16..30 {
        let bucket = status.get_bucket_index(r).unwrap();
        let expected = if r < 10 {
            0
        } else if r < 20 {
            1
        } else {
            2
        };
        assert_eq!(bucket, expected, "raw value {}", r);
    }
    // reduction modulo the last boundary wraps values above it
    assert_eq!(status.get_bucket_index(30), Ok(0));
    assert_eq!(status.get_bucket_index(65), Ok(0), "65 % 30 = 5");
}

#[test]
fn bucket_resolution_rejects_unusable_table() {
    let (mut status, _) = initialize::handler(owner(), owner(), owner(), 300, 1000, 60).unwrap();
    assert_eq!(status.get_bucket_index(5), Err(PlinkoError::InvalidBucketIndex));
    set_payout::handler(&mut status, owner(), vec![0], vec![100]).unwrap();
    assert_eq!(
        status.get_bucket_index(5),
        Err(PlinkoError::InvalidBucketIndex),
        "a last boundary of zero resolves nothing"
    );
}

#[test]
fn payout_amount_rejects_out_of_range_bucket() {
    let (status, _) = engine();
    assert_eq!(status.get_payout_amount(1000, 3), Err(PlinkoError::InvalidBucketIndex));
}

/// Outcome derivation is deterministic and matches the keccak-256 digest of
/// the seed and the ball index.
#[test]
fn derive_outcomes_deterministic() {
    let (status, _) = engine();
    let a = status.derive_many_randoms(12345, 10);
    let b = status.derive_many_randoms(12345, 10);
    assert_eq!(a, b);
    assert_eq!(a.len(), 10);
    #[allow(deprecated)]
    for (i, outcome) in a.iter().enumerate() {
        let hash = solana_program::keccak::hashv(&[&12345u64.to_le_bytes(), &i.to_le_bytes()]);
        let bytes = hash.to_bytes();
        assert_eq!(*outcome, u16::from_le_bytes([bytes[0], bytes[1]]));
    }
    let c = status.derive_many_randoms(12346, 10);
    assert_ne!(a, c, "another seed gives another outcome sequence");
}

#[test]
fn request_id_depends_on_inputs() {
    let (status, _) = engine();
    let a = status.generate_request_id(1, &player(), 100);
    assert_eq!(a, status.generate_request_id(1, &player(), 100));
    assert_ne!(a, status.generate_request_id(2, &player(), 100));
    assert_ne!(a, status.generate_request_id(1, &player(), 101));
    assert_ne!(a, status.generate_request_id(1, &stranger(), 100));
}

/// A full losing round: branch (c). The unspent remainder of the stake
/// stays with the bankroll, and funds are conserved.
#[test]
fn resolve_losing_round_conserves_funds() {
    let (mut status, mut house) = all_lose_engine();
    let mut stats = fresh_stats();
    let balance_before_open = house.balance;
    let mut game = play_game::handler(
        &mut status, &mut house, &mut stats, player(), 10_000, [0; 32], 1, 2, 1000, 0,
    )
    .unwrap();
    let fee = game.bet_amount - game.amount_for_house;
    let request_id = game.request_id;
    let paid = fulfill_random_words::handler(
        &mut status, &mut game, &mut house, &mut stats, 42, request_id, 900,
    )
    .unwrap();
    // every bucket pays bet * 50 / 100
    assert_eq!(paid, 2 * (970 * 50 / 100));
    assert_eq!(game.payout, paid);
    assert!(game.has_ended);
    assert_eq!(game.ended_at, 900);
    assert_eq!(game.buckets.len(), 2);
    assert_eq!(house.pending_request, 0);
    assert_eq!(stats.total_won, paid);
    assert_eq!(status.total_payouts, paid);
    // conservation: wager in == fee + paid out + bankroll net gain
    let net_gain = house.balance as i128 - balance_before_open as i128;
    assert_eq!(fee as i128 + paid as i128 + net_gain, game.bet_amount as i128);
    assert_eq!(house.balance, game.amount_for_house - paid);
}

/// A full winning round: branch (b). The bankroll pays the payout and
/// records the stake it consumed; funds are conserved.
#[test]
fn resolve_winning_round_conserves_funds() {
    let (mut status, mut house) = all_win_engine();
    let mut stats = fresh_stats();
    // bankroll holds plenty beforehand, so the win is covered
    house.balance = 1_000_000_000;
    let balance_before_open = house.balance;
    let mut game = play_game::handler(
        &mut status, &mut house, &mut stats, player(), 10_000, [0; 32], 1, 2, 1000, 0,
    )
    .unwrap();
    let fee = game.bet_amount - game.amount_for_house;
    let request_id = game.request_id;
    let total_payout_before = house.total_payout;
    let paid = fulfill_random_words::handler(
        &mut status, &mut game, &mut house, &mut stats, 42, request_id, 900,
    )
    .unwrap();
    // every bucket pays bet * 10_000_000 / 100
    assert_eq!(paid, 2 * (970 * 100_000));
    assert!(paid >= game.amount_for_house);
    assert_eq!(house.total_payout, total_payout_before + game.amount_for_house);
    let net_gain = house.balance as i128 - balance_before_open as i128;
    assert_eq!(fee as i128 + paid as i128 + net_gain, game.bet_amount as i128);
}

/// Scenario: the computed payout exceeds the stake and the bankroll cannot
/// cover it: the degraded branch (a) refunds exactly the wager, and the
/// bankroll loses exactly the wager minus the stake it held in escrow.
#[test]
fn resolve_degraded_branch_caps_loss() {
    let (mut status, mut house) = all_win_engine();
    let mut stats = fresh_stats();
    // a little retained profit, far below the computed win
    house.balance = 100;
    let balance_before_open = house.balance;
    let mut game = play_game::handler(
        &mut status, &mut house, &mut stats, player(), 10_000, [0; 32], 1, 2, 1000, 0,
    )
    .unwrap();
    // the bankroll is far below the computed win, but covers the wager
    assert_eq!(house.balance, 100 + game.amount_for_house);
    assert!(house.balance >= game.bet_amount);
    let request_id = game.request_id;
    let paid = fulfill_random_words::handler(
        &mut status, &mut game, &mut house, &mut stats, 42, request_id, 900,
    )
    .unwrap();
    assert_eq!(paid, game.bet_amount, "the player is refunded exactly the wager");
    assert_eq!(
        balance_before_open as i128 - house.balance as i128,
        game.bet_amount as i128 - game.amount_for_house as i128,
        "the bankroll absorbs only the stake difference"
    );
    assert!(game.has_ended);
}

/// Resolving a resolved game fails with GameAlreadyEnded and mutates
/// nothing.
#[test]
fn resolve_twice_fails_without_mutation() {
    let (mut status, mut house) = all_lose_engine();
    let mut stats = fresh_stats();
    let mut game = play_game::handler(
        &mut status, &mut house, &mut stats, player(), 10_000, [0; 32], 1, 2, 1000, 0,
    )
    .unwrap();
    let request_id = game.request_id;
    fulfill_random_words::handler(&mut status, &mut game, &mut house, &mut stats, 42, request_id, 900)
        .unwrap();
    let balance = house.balance;
    let pending = house.pending_request;
    let total_won = stats.total_won;
    let total_payouts = status.total_payouts;
    let payout = game.payout;
    let buckets = game.buckets.clone();
    let r = fulfill_random_words::handler(
        &mut status, &mut game, &mut house, &mut stats, 42, request_id, 901,
    );
    assert!(matches!(r, Err(PlinkoError::GameAlreadyEnded)));
    assert_eq!(house.balance, balance);
    assert_eq!(house.pending_request, pending);
    assert_eq!(stats.total_won, total_won);
    assert_eq!(status.total_payouts, total_payouts);
    assert_eq!(game.payout, payout);
    assert_eq!(game.buckets, buckets);
    assert_eq!(game.ended_at, 900, "the record keeps its first resolution");
}

#[test]
fn resolve_rejections() {
    let (mut status, mut house) = all_lose_engine();
    let mut stats = fresh_stats();
    let mut game = play_game::handler(
        &mut status, &mut house, &mut stats, player(), 10_000, [0; 32], 1, 2, 1000, 0,
    )
    .unwrap();
    let request_id = game.request_id;
    assert!(matches!(
        fulfill_random_words::handler(
            &mut status, &mut game, &mut house, &mut stats, 42, request_id.wrapping_add(1), 900
        ),
        Err(PlinkoError::InvalidRequestId)
    ));
    assert!(matches!(
        fulfill_random_words::handler(
            &mut status, &mut game, &mut house, &mut stats, 0, request_id, 900
        ),
        Err(PlinkoError::StillProcessing)
    ));
    assert!(!game.has_ended, "a rejected resolution leaves the game open");
    assert_eq!(house.balance, game.amount_for_house);
    // an unusable odds table rejects the resolution
    set_payout::handler(&mut status, owner(), vec![0], vec![100]).unwrap();
    assert!(matches!(
        fulfill_random_words::handler(
            &mut status, &mut game, &mut house, &mut stats, 42, request_id, 900
        ),
        Err(PlinkoError::InvalidBucketIndex)
    ));
}

#[test]
fn resolve_fails_when_bankroll_cannot_pay_loss() {
    let (mut status, mut house) = all_lose_engine();
    let mut stats = fresh_stats();
    let mut game = play_game::handler(
        &mut status, &mut house, &mut stats, player(), 10_000, [0; 32], 1, 2, 1000, 0,
    )
    .unwrap();
    // drain the escrow below the payout the losing round still owes
    withdraw_from_vault::handler(&status, &mut house, owner(), game.amount_for_house - 1).unwrap();
    let request_id = game.request_id;
    let r = fulfill_random_words::handler(
        &mut status, &mut game, &mut house, &mut stats, 42, request_id, 900,
    );
    assert!(matches!(r, Err(PlinkoError::InsufficientFunds)));
    assert!(!game.has_ended);
}

#[test]
fn withdraw_checks_owner_and_balance() {
    let (status, mut house) = engine();
    house.balance = 500;
    assert!(matches!(
        withdraw_from_vault::handler(&status, &mut house, stranger(), 100),
        Err(PlinkoError::OnlyOwner)
    ));
    assert!(matches!(
        withdraw_from_vault::handler(&status, &mut house, owner(), 501),
        Err(PlinkoError::InsufficientFunds)
    ));
    withdraw_from_vault::handler(&status, &mut house, owner(), 500).unwrap();
    assert_eq!(house.balance, 0);
}
