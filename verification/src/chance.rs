//! The two draws that the game takes from the `rand` crate.
//!
//! Nothing in this file is proved, and nothing is said of which value a draw
//! gives: only what holds of every value that it can give.

use vstd::prelude::*;
use rand::Rng;

verus! {

/// `rand::random::<bool>()`: either value may come back.
#[verifier::external_body]
pub(crate) fn random_bool() -> bool {
    rand::random::<bool>()
}

/// `Rng::gen_range` on the thread's generator, with the inclusive range from
/// `low` to `high`: some value of that range. The call panics on an empty
/// range, so `low` is at most `high`.
#[verifier::external_body]
pub(crate) fn random_in_range(low: i32, high: i32) -> (drawn: i32)
    requires
        low <= high,
    ensures
        low <= drawn <= high,
{
    rand::thread_rng().gen_range(low..=high)
}

} // verus!
