use vstd::prelude::*;

use crate::errors::PlinkoError;

verus! {

/// Largest number of buckets an odds table may hold.
pub const MAX_BUCKETS: usize = 100;

/// Cap on a single payout multiplier: one hundred times the bet, in
/// `PAYOUT_DENOMINATOR` units.
pub const MAX_MULTIPLIER: u64 = 10_000_000;

/// Scaling factor of the payout multipliers.
pub const PAYOUT_DENOMINATOR: u64 = 100;

/// Scaling factor of the platform fee: 10,000 basis points are 100%.
pub const FEE_DENOMINATOR: u64 = 10_000;

/// A 32-byte account identity, held as four 64-bit little-endian words.
#[derive(Clone, Copy, Debug, PartialEq, Eq, Structural)]
pub struct PlayerId {
    pub w0: u64,
    pub w1: u64,
    pub w2: u64,
    pub w3: u64,
}

/// The all-zero identity, marking a record that no account owns yet.
pub open spec fn zero_player() -> PlayerId {
    PlayerId { w0: 0, w1: 0, w2: 0, w3: 0 }
}

impl Default for PlayerId {
    /// The all-zero identity.
    fn default() -> (r: Self)
        ensures
            r == zero_player(),
    {
        PlayerId { w0: 0, w1: 0, w2: 0, w3: 0 }
    }
}

/// Where the most recently requested randomness cycle stands.
#[derive(Clone, Copy, Debug, PartialEq, Eq, Structural)]
pub enum Status {
    Waiting,
    Processing,
    Finished,
}

impl Default for Status {
    fn default() -> (r: Self)
        ensures
            r == Status::Waiting,
    {
        Status::Waiting
    }
}

/// The pooled house bankroll: it escrows the stakes of open games, absorbs
/// losses and funds wins.
#[derive(Clone, Debug)]
pub struct House {
    /// Owner of the bankroll.
    pub owner: PlayerId,
    /// Funds currently held: the escrow of open games plus retained earnings.
    pub balance: u64,
    /// Maximum payout allowed.
    pub maximum_payout: u64,
    /// Running total of the stakes the house has won.
    pub total_payout: u64,
    /// Whether withdrawals are paused.
    pub withdrawals_pause: bool,
    /// Number of games awaiting their randomness.
    pub pending_request: u32,
}

/// The process-wide configuration and odds table of the engine.
#[derive(Clone, Debug)]
pub struct PlinkoStatus {
    /// Owner of the engine; the only identity allowed to tune it.
    pub owner: PlayerId,
    /// Platform fee in basis points (300 = 3%).
    pub platform_fee: u64,
    /// Denominator of the fee calculation; always `FEE_DENOMINATOR`.
    pub fee_denominator: u64,
    /// Denominator of the payout calculation; always `PAYOUT_DENOMINATOR`.
    pub payout_denominator: u64,
    /// Minimum buy-in amount.
    pub min_buy_in: u64,
    /// Maximum balls per game.
    pub max_balls: u8,
    /// Whether the odds table is immutable.
    pub odds_locked: bool,
    /// Whether the engine rejects new games.
    pub paused: bool,
    /// Cumulative weight thresholds of the buckets, strictly increasing.
    pub bucket_weights: Vec<u64>,
    /// Payout multiplier of each bucket, aligned with `bucket_weights`.
    pub payouts: Vec<u64>,
    /// Total number of games opened.
    pub total_games: u64,
    /// Total volume of bets taken.
    pub total_volume: u64,
    /// Total payouts computed.
    pub total_payouts: u64,
    /// Identity of the fee sink.
    pub fee_treasury: PlayerId,
    /// Identity of the house account.
    pub house_account: PlayerId,
    /// Commitment of the most recent randomness request.
    pub force: [u8; 32],
    /// Where the most recent randomness cycle stands.
    pub status: Status,
}

/// Per-game ledger record, keyed by `game_id`.
#[derive(Clone, Debug)]
pub struct Game {
    /// Unique identifier of the game.
    pub game_id: u64,
    /// The player who opened it.
    pub player: PlayerId,
    /// The whole wager: bet per ball times ball count.
    pub bet_amount: u64,
    /// The wager minus the platform fee: the stake escrowed with the house.
    pub amount_for_house: u64,
    /// Number of balls played.
    pub num_balls: u8,
    /// Stake per ball after the fee.
    pub bet_amount_per_ball: u64,
    /// Bucket each ball landed in; zero-filled until resolution.
    pub buckets: Vec<u8>,
    /// Payout computed at resolution.
    pub payout: u64,
    /// Whether the game is resolved; a resolved game is immutable.
    pub has_ended: bool,
    /// Request id the randomness oracle must answer under.
    pub request_id: u64,
    /// Timestamp of the opening.
    pub created_at: i64,
    /// Timestamp of the resolution.
    pub ended_at: i64,
}

/// Per-player running totals; bookkeeping, not correctness-critical.
#[derive(Clone, Debug)]
pub struct UserStats {
    /// The player these totals belong to; all-zero until first use.
    pub user: PlayerId,
    /// Number of games the player opened.
    pub total_games: u64,
    /// Total amount the player wagered.
    pub total_wagered: u64,
    /// Total amount the player won.
    pub total_won: u64,
    /// Ids of the games the player opened, in order.
    pub game_ids: Vec<u64>,
}

impl UserStats {
    /// The running totals never desynchronize: the game count equals the
    /// length of the id list, and the list stays within its cap.
    pub open spec fn wf(&self) -> bool {
        &&& self.total_games == self.game_ids@.len()
        &&& self.game_ids@.len() <= 100
    }
}

/// Strict ascending order, the invariant of the bucket boundaries.
pub open spec fn strictly_increasing(s: Seq<u64>) -> bool {
    forall|i: int, j: int| 0 <= i < j < s.len() ==> s[i] < s[j]
}

/// The outcome the keccak-256 digest of `(base, index)` gives a ball:
/// its first two bytes, little-endian.
pub uninterp spec fn ball_random_of(base: u64, index: usize) -> u16;

/// The request id the keccak-256 digest of a game id, a player identity and
/// a timestamp gives: its first eight bytes, little-endian.
pub uninterp spec fn request_id_of(
    game_id: u64,
    p0: u64,
    p1: u64,
    p2: u64,
    p3: u64,
    now: i64,
) -> u64;

/// The outcome sequence `derive_many_randoms` produces for a seed.
pub open spec fn derived_outcomes(base: u64, count: int) -> Seq<u16> {
    Seq::new(count as nat, |i: int| ball_random_of(base, i as usize))
}

/// Index of the first boundary strictly above `r`, or the length of the
/// table when every boundary is at or below `r`.
pub open spec fn bucket_of(weights: Seq<u64>, r: int) -> int
    decreases weights.len(),
{
    if weights.len() == 0 {
        0
    } else if r < weights[0] {
        0
    } else {
        1 + bucket_of(weights.drop_first(), r)
    }
}

/// Lower end of bucket `i`'s range: the previous boundary, or zero for the
/// first bucket.
pub open spec fn bucket_lower(weights: Seq<u64>, i: int) -> int {
    if i == 0 {
        0
    } else {
        weights[i - 1] as int
    }
}

/// Relies on `solana_program::keccak::hashv`: the digest is a function of
/// the hashed byte slices alone, so the outcome of a ball depends only on
/// the seed and the ball index.
#[verifier::external_body]
#[allow(deprecated)]
fn derive_ball_random(base: u64, index: usize) -> (r: u16)
    ensures
        r == ball_random_of(base, index),
{
    let hash = solana_program::keccak::hashv(&[&base.to_le_bytes(), &index.to_le_bytes()]);
    let bytes = hash.to_bytes();
    u16::from_le_bytes([bytes[0], bytes[1]])
}

impl PlinkoStatus {
    /// The odds table is usable: both sequences aligned, at most
    /// `MAX_BUCKETS` long, boundaries strictly increasing, multipliers
    /// within the cap.
    pub open spec fn wf_odds(&self) -> bool {
        &&& self.bucket_weights@.len() == self.payouts@.len()
        &&& self.bucket_weights@.len() <= MAX_BUCKETS
        &&& strictly_increasing(self.bucket_weights@)
        &&& forall|i: int| 0 <= i < self.payouts@.len() ==> self.payouts@[i] <= MAX_MULTIPLIER
    }

    /// The whole configuration is well formed.
    pub open spec fn wf(&self) -> bool {
        &&& self.wf_odds()
        &&& self.fee_denominator == FEE_DENOMINATOR
        &&& self.payout_denominator == PAYOUT_DENOMINATOR
        &&& self.platform_fee <= 500
        &&& self.max_balls as int <= MAX_BUCKETS
        &&& self.min_buy_in >= 1
    }

    /// The last bucket boundary, or zero for an empty table.
    pub open spec fn max_bucket_value_spec(&self) -> u64 {
        if self.bucket_weights@.len() == 0 {
            0
        } else {
            self.bucket_weights@.last()
        }
    }

    /// Bucket a raw 16-bit outcome resolves to, after reduction modulo the
    /// last boundary.
    pub open spec fn resolved_bucket(&self, random: u16) -> int {
        bucket_of(self.bucket_weights@, (random as int) % (self.max_bucket_value_spec() as int))
    }

    /// Payout of one ball: the bet scaled by the bucket's multiplier,
    /// truncated in the house's favour.
    pub open spec fn payout_amount_spec(&self, bet_amount: u64, bucket_index: int) -> int {
        bet_amount * self.payouts@[bucket_index] / (PAYOUT_DENOMINATOR as int)
    }

    pub fn is_owner(&self, user: &PlayerId) -> (r: bool)
        ensures
            r == (self.owner == *user),
    {
        self.owner == *user
    }

    /// One independent 16-bit outcome per ball, derived from the oracle's
    /// seed by domain-separated hashing; deterministic in `base` and `count`.
    pub fn derive_many_randoms(&self, base: u64, count: usize) -> (r: Vec<u16>)
        ensures
            r@ == derived_outcomes(base, count as int),
    {
        let mut output: Vec<u16> = Vec::with_capacity(count);
        let mut i: usize = 0;
        while i < count
            invariant
                i <= count,
                output@.len() == i,
                forall|j: int| 0 <= j < i ==> output@[j] == ball_random_of(base, j as usize),
            decreases count - i,
        {
            output.push(derive_ball_random(base, i));
            i = i + 1;
        }
        proof {
            assert(output@ =~= derived_outcomes(base, count as int));
        }
        output
    }

    pub fn max_bucket_value(&self) -> (r: u64)
        ensures
            r == self.max_bucket_value_spec(),
    {
        if self.bucket_weights.len() == 0 {
            0
        } else {
            self.bucket_weights[self.bucket_weights.len() - 1]
        }
    }

    /// Resolve a raw outcome to a bucket index: reduce it modulo the last
    /// boundary and take the first bucket whose boundary lies strictly above.
    /// An empty table (or a last boundary of zero) resolves nothing.
    #[verifier::loop_isolation(false)]
    pub fn get_bucket_index(&self, random: u16) -> (r: Result<u8, PlinkoError>)
        requires
            self.wf_odds(),
        ensures
            self.max_bucket_value_spec() == 0 ==> r == Err::<u8, PlinkoError>(
                PlinkoError::InvalidBucketIndex,
            ),
            self.max_bucket_value_spec() != 0 ==> (r matches Ok(i) && (i as int)
                == self.resolved_bucket(random)),
    {
        let max_bucket_val = self.max_bucket_value();
        if max_bucket_val == 0 {
            return Err(PlinkoError::InvalidBucketIndex);
        }
        let random_mod: u64 = (random as u64) % max_bucket_val;
        let len = self.bucket_weights.len();
        let mut i: usize = 0;
        while i < len
            invariant
                0 <= i <= len,
                len == self.bucket_weights@.len() <= MAX_BUCKETS,
                forall|j: int| 0 <= j < i ==> self.bucket_weights@[j] <= random_mod,
            decreases len - i,
        {
            if random_mod < self.bucket_weights[i] {
                proof {
                    lemma_bucket_of_first_hit(self.bucket_weights@, random_mod as int, i as int);
                }
                return Ok(i as u8);
            }
            i = i + 1;
        }
        proof {
            lemma_bucket_of_first_hit(self.bucket_weights@, random_mod as int, len as int);
        }
        Ok(len as u8)
    }

    /// Payout of one ball for a resolved bucket; an index at or beyond the
    /// table length is invalid.
    pub fn get_payout_amount(&self, bet_amount: u64, bucket_index: u8) -> (r: Result<
        u64,
        PlinkoError,
    >)
        requires
            self.wf(),
            (bucket_index as int) < self.payouts@.len() ==> bet_amount * self.payouts@[bucket_index as int]
                <= u64::MAX,
        ensures
            (bucket_index as int) >= self.payouts@.len() ==> r == Err::<u64, PlinkoError>(
                PlinkoError::InvalidBucketIndex,
            ),
            (bucket_index as int) < self.payouts@.len() ==> (r matches Ok(p) && p
                == self.payout_amount_spec(bet_amount, bucket_index as int)),
    {
        if (bucket_index as usize) >= self.payouts.len() {
            return Err(PlinkoError::InvalidBucketIndex);
        }
        Ok((bet_amount * self.payouts[bucket_index as usize]) / self.payout_denominator)
    }

    /// Relies on `solana_program::keccak::hash`: the digest is a function of
    /// the hashed bytes alone, so the request id depends only on the game id,
    /// the player identity and the timestamp. Its first eight bytes,
    /// little-endian, are the id.
    #[verifier::external_body]
    #[allow(deprecated)]
    pub fn generate_request_id(&self, game_id: u64, player: &PlayerId, now: i64) -> (r: u64)
        ensures
            r == request_id_of(game_id, player.w0, player.w1, player.w2, player.w3, now),
    {
        let mut data: Vec<u8> = Vec::new();
        data.extend_from_slice(&game_id.to_le_bytes());
        data.extend_from_slice(&player.w0.to_le_bytes());
        data.extend_from_slice(&player.w1.to_le_bytes());
        data.extend_from_slice(&player.w2.to_le_bytes());
        data.extend_from_slice(&player.w3.to_le_bytes());
        data.extend_from_slice(&now.to_le_bytes());
        let hash = solana_program::keccak::hash(&data);
        let bytes = hash.to_bytes();
        u64::from_le_bytes([
            bytes[0], bytes[1], bytes[2], bytes[3], bytes[4], bytes[5], bytes[6], bytes[7],
        ])
    }
}

/// `bucket_of` returns the first index whose boundary lies strictly above
/// `r`: if every boundary below `i` is at or below `r`, and boundary `i`
/// (when it exists) is above, the scan stops exactly at `i`.
proof fn lemma_bucket_of_first_hit(weights: Seq<u64>, r: int, i: int)
    requires
        0 <= i <= weights.len(),
        forall|j: int| 0 <= j < i ==> weights[j] <= r,
        i < weights.len() ==> r < weights[i],
    ensures
        bucket_of(weights, r) == i,
    decreases weights.len(),
{
    if weights.len() == 0 {
    } else if i == 0 {
    } else {
        assert(weights[0] <= r);
        lemma_bucket_of_first_hit(weights.drop_first(), r, i - 1);
    }
}

/// Bounds of the scan: its result lies between 0 and the table length, every
/// boundary before it is at or below `r`, and the boundary at it (when the
/// result is not the length) is above `r`.
proof fn lemma_bucket_of_bounds(weights: Seq<u64>, r: int)
    ensures
        0 <= bucket_of(weights, r) <= weights.len(),
        bucket_of(weights, r) < weights.len() ==> r < weights[bucket_of(weights, r)],
        forall|j: int| 0 <= j < bucket_of(weights, r) ==> weights[j] <= r,
    decreases weights.len(),
{
    if weights.len() == 0 {
    } else if r < weights[0] {
    } else {
        lemma_bucket_of_bounds(weights.drop_first(), r);
        assert forall|j: int| 0 <= j < bucket_of(weights, r) implies weights[j] <= r by {
            if j >= 1 {
                assert(weights.drop_first()[j - 1] <= r);
            }
        }
    }
}

/// Law: outcome derivation is deterministic. The same seed and ball count
/// always give the same outcome sequence, as audit and replay require.
pub proof fn lemma_derive_outcomes_deterministic(base: u64, count: int, a: Seq<u16>, b: Seq<u16>)
    requires
        a == derived_outcomes(base, count),
        b == derived_outcomes(base, count),
    ensures
        a == b,
{
}

/// Law: an odds table with strictly increasing boundaries partitions the
/// values `0 <= r <` last boundary into exactly one contiguous range per
/// bucket, `[bucket_lower(i), weights[i])`, with no gaps and no overlaps:
/// every such `r` resolves to exactly one bucket, and `bucket_of` names it.
pub proof fn lemma_bucket_partition(weights: Seq<u64>, r: int)
    requires
        weights.len() >= 1,
        strictly_increasing(weights),
        0 <= r < weights.last(),
    ensures
        0 <= bucket_of(weights, r) < weights.len(),
        bucket_lower(weights, bucket_of(weights, r)) <= r < weights[bucket_of(weights, r)],
        forall|i: int|
            0 <= i < weights.len() && #[trigger] bucket_lower(weights, i) <= r < weights[i] ==> i
                == bucket_of(weights, r),
{
    lemma_bucket_of_bounds(weights, r);
    let b = bucket_of(weights, r);
    if b == weights.len() as int {
        assert(weights[weights.len() - 1] <= r);
        assert(false);
    }
    assert forall|i: int|
        0 <= i < weights.len() && #[trigger] bucket_lower(weights, i) <= r < weights[i] implies i
        == b by {
        if i < b {
            assert(weights[i] <= r);
        } else if i > b {
            assert(b <= i - 1);
            if b < i - 1 {
                assert(weights[b] < weights[i - 1]);
            }
            assert(weights[i - 1] <= r);
            assert(r < weights[b]);
        }
    }
}

} // verus!
