use vstd::prelude::*;

use crate::account::{strictly_increasing, PlayerId, PlinkoStatus, MAX_BUCKETS, MAX_MULTIPLIER};
use crate::errors::PlinkoError;

verus! {

/// The new odds table is accepted: owner calling, table not locked, the two
/// sequences aligned, non-empty and at most `MAX_BUCKETS` long, boundaries
/// strictly increasing, every multiplier within the cap.
pub open spec fn set_odds_accepted(
    status: PlinkoStatus,
    authority: PlayerId,
    weights: Seq<u64>,
    payouts: Seq<u64>,
) -> bool {
    &&& status.owner == authority
    &&& !status.odds_locked
    &&& weights.len() == payouts.len()
    &&& weights.len() > 0
    &&& weights.len() <= MAX_BUCKETS
    &&& strictly_increasing(weights)
    &&& forall|i: int| 0 <= i < payouts.len() ==> payouts[i] <= MAX_MULTIPLIER
}

/// The first rejection the new odds table runs into.
pub open spec fn set_odds_error(
    status: PlinkoStatus,
    authority: PlayerId,
    weights: Seq<u64>,
    payouts: Seq<u64>,
) -> PlinkoError {
    if status.owner != authority {
        PlinkoError::OnlyOwner
    } else if status.odds_locked {
        PlinkoError::OddsLocked
    } else if weights.len() != payouts.len() || weights.len() == 0 || weights.len() > MAX_BUCKETS {
        PlinkoError::InvalidLength
    } else {
        PlinkoError::InvalidBucketIndex
    }
}

/// Replace the whole odds table atomically: the cumulative bucket
/// boundaries and the payout multiplier of each bucket. Owner-only and
/// rejected once the table is locked; a rejected table leaves the old one
/// untouched.
#[verifier::loop_isolation(false)]
pub fn handler(
    status: &mut PlinkoStatus,
    authority: PlayerId,
    bucket_weights: Vec<u64>,
    payouts: Vec<u64>,
) -> (r: Result<(), PlinkoError>)
    requires
        old(status).wf(),
    ensures
        r is Ok <==> set_odds_accepted(*old(status), authority, bucket_weights@, payouts@),
        !set_odds_accepted(*old(status), authority, bucket_weights@, payouts@) ==> (r matches Err(e)
            && e == set_odds_error(*old(status), authority, bucket_weights@, payouts@))
            && *final(status) == *old(status),
        r is Ok ==> *final(status) == (PlinkoStatus {
            bucket_weights,
            payouts,
            ..*old(status)
        }),
        final(status).wf(),
{
    if !status.is_owner(&authority) {
        return Err(PlinkoError::OnlyOwner);
    }
    if status.odds_locked {
        return Err(PlinkoError::OddsLocked);
    }
    if bucket_weights.len() != payouts.len() {
        return Err(PlinkoError::InvalidLength);
    }
    if bucket_weights.len() == 0 {
        return Err(PlinkoError::InvalidLength);
    }
    if bucket_weights.len() > MAX_BUCKETS {
        return Err(PlinkoError::InvalidLength);
    }
    let len = bucket_weights.len();
    let mut i: usize = 1;
    while i < len
        invariant
            1 <= i <= len,
            forall|p: int, q: int| 0 <= p < q < i ==> bucket_weights@[p] < bucket_weights@[q],
        decreases len - i,
    {
        if bucket_weights[i] <= bucket_weights[i - 1] {
            return Err(PlinkoError::InvalidBucketIndex);
        }
        proof {
            assert forall|p: int, q: int| 0 <= p < q < i + 1 implies bucket_weights@[p]
                < bucket_weights@[q] by {
                if q == i as int && p < q - 1 {
                    assert(bucket_weights@[p] < bucket_weights@[q - 1]);
                }
            }
        }
        i = i + 1;
    }
    let mut k: usize = 0;
    while k < len
        invariant
            0 <= k <= len,
            forall|p: int| 0 <= p < k ==> payouts@[p] <= MAX_MULTIPLIER,
        decreases len - k,
    {
        if payouts[k] > MAX_MULTIPLIER {
            return Err(PlinkoError::InvalidBucketIndex);
        }
        k = k + 1;
    }
    status.bucket_weights = bucket_weights;
    status.payouts = payouts;
    Ok(())
}

} // verus!
