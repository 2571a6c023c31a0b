//! Address arithmetic on IPv4 octets.
use vstd::prelude::*;

use crate::days::Endpoint;

verus! {

/// The destination reached from `from` with `key`: octet by octet,
/// `from + key` modulo 256.
pub fn dest(from: [u8; 4], key: [u8; 4]) -> (r: [u8; 4])
    ensures
        forall|i: int| 0 <= i < 4 ==> #[trigger] r[i] == (from[i] + key[i]) % 256,
{
    let r = [
        from[0].wrapping_add(key[0]),
        from[1].wrapping_add(key[1]),
        from[2].wrapping_add(key[2]),
        from[3].wrapping_add(key[3]),
    ];
    assert forall|i: int| 0 <= i < 4 implies #[trigger] r[i] == (from[i] + key[i]) % 256 by {
        assert(0 <= i < 4);
    }
    r
}

/// The key that leads from `from` to `to`: octet by octet, `to - from`
/// modulo 256.
pub fn key_(from: [u8; 4], to: [u8; 4]) -> (r: [u8; 4])
    ensures
        forall|i: int| 0 <= i < 4 ==> #[trigger] r[i] == (to[i] - from[i] + 256) % 256,
{
    let r = [
        to[0].wrapping_sub(from[0]),
        to[1].wrapping_sub(from[1]),
        to[2].wrapping_sub(from[2]),
        to[3].wrapping_sub(from[3]),
    ];
    assert forall|i: int| 0 <= i < 4 implies #[trigger] r[i] == (to[i] - from[i] + 256) % 256 by {
        assert(0 <= i < 4);
    }
    r
}

/// The routes of this day.
pub open spec fn routes() -> Seq<Endpoint> {
    seq![Endpoint::Dest, Endpoint::Key]
}

pub fn get_router() -> (r: Vec<Endpoint>)
    ensures
        r@ == routes(),
{
    let mut r: Vec<Endpoint> = Vec::new();
    r.push(Endpoint::Dest);
    r.push(Endpoint::Key);
    assert(r@ =~= routes());
    r
}

} // verus!
