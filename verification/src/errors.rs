use vstd::prelude::*;

verus! {

/// Every way an instruction of the engine can be rejected. A rejection
/// always aborts the whole phase: no ledger or bankroll mutation survives it.
#[derive(Clone, Copy, Debug, PartialEq, Eq, Structural)]
pub enum PlinkoError {
    /// The ball count is zero or above the configured maximum.
    InvalidNumberOfBalls,
    /// A game with this id already exists.
    GameIdAlreadyUsed,
    /// The bet is zero, below the minimum buy-in, beyond the player's
    /// balance, or leaves no stake per ball after the fee.
    InvalidBetAmount,
    /// A configuration value is out of range.
    InvalidValue,
    /// The engine is paused.
    GamePaused,
    /// Only the owner can call this instruction.
    OnlyOwner,
    /// Only the randomness oracle can call this instruction.
    OnlyVrf,
    /// The odds table is locked and can no longer change.
    OddsLocked,
    /// Bucket boundaries and payout multipliers have unusable lengths.
    InvalidLength,
    /// No game is stored under this id.
    GameNotFound,
    /// The game was already resolved.
    GameAlreadyEnded,
    /// The request id does not match the one stored with the game.
    InvalidRequestId,
    /// The platform fee exceeds its cap.
    PlatformFeeTooHigh,
    /// The oracle fee exceeds its cap.
    VrfFeeTooHigh,
    /// The maximum ball count exceeds its cap.
    MaxBallsTooHigh,
    /// A derived bucket index points outside the odds table, or the table
    /// cannot resolve any bucket at all.
    InvalidBucketIndex,
    /// The bankroll cannot cover the movement of funds.
    InsufficientFunds,
    /// The oracle's answer is unusable.
    InvalidRandomWords,
    /// No randomness request is stored under this id.
    RequestIdNotFound,
    /// The randomness is still being produced; retry later.
    StillProcessing,
}

} // verus!
