//! A database of quotes.
use vstd::prelude::*;

use crate::days::Endpoint;

verus! {

/// The routes of this day.
pub open spec fn routes() -> Seq<Endpoint> {
    seq![Endpoint::QuotesReset, Endpoint::Cite, Endpoint::Remove, Endpoint::Undo, Endpoint::Draft]
}

pub fn get_router() -> (r: Vec<Endpoint>)
    ensures
        r@ == routes(),
{
    let mut r: Vec<Endpoint> = Vec::new();
    r.push(Endpoint::QuotesReset);
    r.push(Endpoint::Cite);
    r.push(Endpoint::Remove);
    r.push(Endpoint::Undo);
    r.push(Endpoint::Draft);
    assert(r@ =~= routes());
    r
}

} // verus!
