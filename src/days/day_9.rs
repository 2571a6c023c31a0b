//! A milk dispenser with a rate limit.
use vstd::prelude::*;

use crate::days::Endpoint;

verus! {

/// How many units of milk the counter starts with and refills up to.
pub const MILK_CAPACITY: u64 = 5;

/// The value that takes the place of `current` when one unit is taken:
/// one less, or nothing when none is left.
pub fn saturating_dec_target(current: u64) -> (r: Option<u64>)
    ensures
        current == 0 ==> r is None,
        current > 0 ==> r == Some((current - 1) as u64),
{
    if current > 0 {
        Some(current - 1)
    } else {
        None
    }
}

/// The value that takes the place of `current` when one unit is added:
/// one more, or nothing when `max` is reached.
pub fn saturating_inc_target(current: u64, max: u64) -> (r: Option<u64>)
    ensures
        current >= max ==> r is None,
        current < max ==> r == Some((current + 1) as u64),
{
    if current < max {
        Some(current + 1)
    } else {
        None
    }
}

/// A request is served when the counter had a unit to give: the value it
/// held before, as the decrement returns it, is not zero.
pub fn admits(previous: u64) -> (r: bool)
    ensures
        r == (previous > 0),
{
    previous != 0
}

/// The routes of this day.
pub open spec fn routes() -> Seq<Endpoint> {
    seq![Endpoint::Milk]
}

pub fn get_router() -> (r: Vec<Endpoint>)
    ensures
        r@ == routes(),
{
    let mut r: Vec<Endpoint> = Vec::new();
    r.push(Endpoint::Milk);
    assert(r@ =~= routes());
    r
}

} // verus!
