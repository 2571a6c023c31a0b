//! Orders read from a Cargo manifest.
use vstd::prelude::*;

use crate::days::day_23::same_text;
use crate::days::Endpoint;

verus! {

/// The keyword that a manifest must carry for its orders to be read.
pub const MAGIC_KEYWORD: &'static str = "Christmas 2024";

/// One order of the manifest's metadata.
#[derive(Debug)]
pub struct Order {
    pub item: String,
    pub quantity: usize,
}

/// Why no orders are listed.
#[derive(Debug, Clone, Copy, PartialEq, Eq, Structural)]
pub enum Day5Error {
    /// The manifest is not valid.
    ParseError,
    /// The package does not carry the magic keyword.
    NoMagicKeyword,
    /// There is no valid order.
    NoOrders,
}

impl Day5Error {
    pub fn message(&self) -> (r: &'static str)
        ensures
            r@ == match self {
                Day5Error::ParseError => "Invalid manifest"@,
                Day5Error::NoMagicKeyword => "Magic keyword not provided"@,
                Day5Error::NoOrders => "no orders"@,
            },
    {
        match self {
            Day5Error::ParseError => "Invalid manifest",
            Day5Error::NoMagicKeyword => "Magic keyword not provided",
            Day5Error::NoOrders => "no orders",
        }
    }

    /// A bad request, or "no content" when there is nothing to list.
    pub fn status_code(&self) -> (r: u16)
        ensures
            r == match self {
                Day5Error::ParseError => 400u16,
                Day5Error::NoMagicKeyword => 400u16,
                Day5Error::NoOrders => 204u16,
            },
    {
        match self {
            Day5Error::ParseError | Day5Error::NoMagicKeyword => 400,
            Day5Error::NoOrders => 204,
        }
    }
}

pub open spec fn digit_char(d: nat) -> char {
    if d == 0 {
        '0'
    } else if d == 1 {
        '1'
    } else if d == 2 {
        '2'
    } else if d == 3 {
        '3'
    } else if d == 4 {
        '4'
    } else if d == 5 {
        '5'
    } else if d == 6 {
        '6'
    } else if d == 7 {
        '7'
    } else if d == 8 {
        '8'
    } else {
        '9'
    }
}

/// The decimal digits of `n`, without leading zeros.
pub open spec fn decimal(n: nat) -> Seq<char>
    decreases n,
{
    if n < 10 {
        seq![digit_char(n)]
    } else {
        decimal(n / 10) + seq![digit_char(n % 10)]
    }
}

/// Relies on `usize`'s `Display`, through `to_string`: the number in
/// decimal digits, without sign or leading zeros.
#[verifier::external_body]
fn decimal_string(n: usize) -> (r: String)
    ensures
        r@ == decimal(n as nat),
{
    n.to_string()
}

/// The line that lists one order.
pub open spec fn order_line(o: Order) -> Seq<char> {
    o.item@ + ": "@ + decimal(o.quantity as nat)
}

/// The lines of the valid orders, in order.
pub open spec fn order_lines(orders: Seq<Option<Order>>) -> Seq<Seq<char>>
    decreases orders.len(),
{
    if orders.len() == 0 {
        Seq::empty()
    } else {
        let rest = order_lines(orders.drop_last());
        match orders.last() {
            Some(o) => rest.push(order_line(o)),
            None => rest,
        }
    }
}

/// Lines joined by line breaks.
pub open spec fn joined(lines: Seq<Seq<char>>) -> Seq<char>
    decreases lines.len(),
{
    if lines.len() == 0 {
        Seq::empty()
    } else if lines.len() == 1 {
        lines[0]
    } else {
        joined(lines.drop_last()) + "\n"@ + lines.last()
    }
}

/// Some keyword is the magic one.
pub open spec fn has_magic(keywords: Seq<String>) -> bool {
    exists|i: int| 0 <= i < keywords.len() && (#[trigger] keywords[i])@ == MAGIC_KEYWORD@
}

/// What the orders of a manifest come to: their lines, or why there are
/// none, checked in this order.
pub open spec fn manifest_result(
    keywords: Option<Vec<String>>,
    orders: Option<Vec<Option<Order>>>,
) -> Result<Seq<char>, Day5Error> {
    match keywords {
        None => Err(Day5Error::NoOrders),
        Some(k) => if !has_magic(k@) {
            Err(Day5Error::NoMagicKeyword)
        } else {
            match orders {
                None => Err(Day5Error::NoOrders),
                Some(os) => if order_lines(os@).len() == 0 {
                    Err(Day5Error::NoOrders)
                } else {
                    Ok(joined(order_lines(os@)))
                },
            }
        },
    }
}

/// The orders of a manifest, one line each. `keywords` is `None` where the
/// package takes them from a workspace; `orders` holds an entry for each
/// element of the metadata's `orders` array, `None` for one that is not a
/// valid order, and is `None` itself where there is no such array.
pub fn manifest_orders(keywords: Option<Vec<String>>, orders: Option<Vec<Option<Order>>>) -> (r:
    Result<String, Day5Error>)
    ensures
        match r {
            Ok(t) => manifest_result(keywords, orders) == Ok::<Seq<char>, Day5Error>(t@),
            Err(e) => manifest_result(keywords, orders) == Err::<Seq<char>, Day5Error>(e),
        },
{
    let keywords = match keywords {
        Some(k) => k,
        None => return Err(Day5Error::NoOrders),
    };
    let mut found = false;
    let mut i: usize = 0;
    while i < keywords.len()
        invariant
            i <= keywords@.len(),
            found <==> exists|j: int| 0 <= j < i && (#[trigger] keywords@[j])@ == MAGIC_KEYWORD@,
        decreases keywords@.len() - i,
    {
        if same_text(keywords[i].as_str(), MAGIC_KEYWORD) {
            found = true;
        }
        i += 1;
    }
    if !found {
        return Err(Day5Error::NoMagicKeyword);
    }
    let orders = match orders {
        Some(os) => os,
        None => return Err(Day5Error::NoOrders),
    };
    let mut out = String::new();
    let mut any = false;
    let mut i: usize = 0;
    while i < orders.len()
        invariant
            i <= orders@.len(),
            any <==> order_lines(orders@.take(i as int)).len() > 0,
            out@ == joined(order_lines(orders@.take(i as int))),
        decreases orders@.len() - i,
    {
        assert(orders@.take(i as int + 1).drop_last() =~= orders@.take(i as int));
        match &orders[i] {
            Some(o) => {
                if any {
                    out.append("\n");
                }
                out.append(o.item.as_str());
                out.append(": ");
                let q = decimal_string(o.quantity);
                out.append(q.as_str());
                any = true;
                proof {
                    let lines = order_lines(orders@.take(i as int));
                    assert(order_lines(orders@.take(i as int + 1)) == lines.push(order_line(*o)));
                    assert(lines.push(order_line(*o)).drop_last() =~= lines);
                    if lines.len() == 0 {
                        reveal_strlit("");
                    }
                }
            },
            None => {},
        }
        i += 1;
    }
    assert(orders@.take(orders@.len() as int) =~= orders@);
    if !any {
        return Err(Day5Error::NoOrders);
    }
    Ok(out)
}

/// The routes of this day.
pub open spec fn routes() -> Seq<Endpoint> {
    seq![Endpoint::Manifest]
}

pub fn get_router() -> (r: Vec<Endpoint>)
    ensures
        r@ == routes(),
{
    let mut r: Vec<Endpoint> = Vec::new();
    r.push(Endpoint::Manifest);
    assert(r@ =~= routes());
    r
}

} // verus!
