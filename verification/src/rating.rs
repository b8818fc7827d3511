//! The rating that the model attaches to a reaction, held to a fixed range.

use vstd::prelude::*;

verus! {

/// Lowest rating a reaction can carry.
pub const RATING_MIN: i64 = -500;

/// Highest rating a reaction can carry.
pub const RATING_MAX: i64 = 50;

/// The value in `[RATING_MIN, RATING_MAX]` nearest to `raw`.
pub open spec fn clamped(raw: int) -> int {
    if raw < RATING_MIN {
        RATING_MIN as int
    } else if raw > RATING_MAX {
        RATING_MAX as int
    } else {
        raw
    }
}

/// Brings whatever number the model produced into the rating range.
pub fn clamp_rating(raw: i64) -> (rating: i64)
    ensures
        rating == clamped(raw as int),
        RATING_MIN <= rating <= RATING_MAX,
{
    if raw < RATING_MIN {
        RATING_MIN
    } else if raw > RATING_MAX {
        RATING_MAX
    } else {
        raw
    }
}

} // verus!
