//! The one thing that chance decides: which way the ball is served.

use vstd::prelude::*;
use rand::Rng;
use crate::action::Side;

verus! {

/// The side that a toss selects: the left one on heads.
pub open spec fn side_of_toss(heads: bool) -> Side {
    if heads {
        Side::Left
    } else {
        Side::Right
    }
}

/// Tosses a fair coin: `Rng::random_ratio(1, 2)` of the `rand` crate, drawn
/// from the thread's own generator, `rand::rng()`.
///
/// Nothing is claimed of the outcome: either value may come back, and two
/// tosses need not agree. `random_ratio` panics on a zero denominator or a
/// numerator beyond the denominator, which one in two is not. The generator
/// seeds itself from the operating system and panics if the system has no
/// entropy to give.
#[verifier::external_body]
fn coin() -> (heads: bool) {
    rand::rng().random_ratio(1, 2)
}

/// Reads a toss as a side.
pub fn side_of(heads: bool) -> (side: Side)
    ensures
        side == side_of_toss(heads),
{
    if heads {
        Side::Left
    } else {
        Side::Right
    }
}

/// Picks a side by the toss of a fair coin.
pub fn toss() -> Side {
    side_of(coin())
}

} // verus!
