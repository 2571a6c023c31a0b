//! Gifts wrapped in signed tokens.
use vstd::prelude::*;

use crate::days::Endpoint;

verus! {

/// The routes of this day.
pub open spec fn routes() -> Seq<Endpoint> {
    seq![Endpoint::Wrap, Endpoint::Unwrap]
}

pub fn get_router() -> (r: Vec<Endpoint>)
    ensures
        r@ == routes(),
{
    let mut r: Vec<Endpoint> = Vec::new();
    r.push(Endpoint::Wrap);
    r.push(Endpoint::Unwrap);
    assert(r@ =~= routes());
    r
}

} // verus!
