//! The puzzle days, and the table of the routes that they answer.
pub mod day_1;
pub mod day_12;
pub mod day_16;
pub mod day_19;
pub mod day_2;
pub mod day_23;
pub mod day_5;
pub mod day_9;

use vstd::prelude::*;

verus! {

/// The HTTP methods that the routes use.
#[derive(Debug, Clone, Copy, PartialEq, Eq, Structural)]
pub enum Method {
    Get,
    Post,
    Put,
    Delete,
}

/// One route of one day: a path and a method, answered by one handler.
#[derive(Debug, Clone, Copy, PartialEq, Eq, Structural)]
pub enum Endpoint {
    Seek,
    Dest,
    Key,
    Manifest,
    Milk,
    Board,
    Reset,
    Place,
    Wrap,
    Unwrap,
    QuotesReset,
    Cite,
    Remove,
    Undo,
    Draft,
    Star,
    Present,
    Ornament,
}

impl Endpoint {
    pub open spec fn method_spec(self) -> Method {
        match self {
            Endpoint::Seek | Endpoint::Dest | Endpoint::Key | Endpoint::Board | Endpoint::Unwrap
            | Endpoint::Cite | Endpoint::Star | Endpoint::Present | Endpoint::Ornament => Method::Get,
            Endpoint::Manifest | Endpoint::Milk | Endpoint::Reset | Endpoint::Place
            | Endpoint::Wrap | Endpoint::QuotesReset | Endpoint::Draft => Method::Post,
            Endpoint::Undo => Method::Put,
            Endpoint::Remove => Method::Delete,
        }
    }

    /// The method that the route answers.
    pub fn method(&self) -> (r: Method)
        ensures
            r == self.method_spec(),
    {
        match self {
            Endpoint::Seek | Endpoint::Dest | Endpoint::Key | Endpoint::Board | Endpoint::Unwrap
            | Endpoint::Cite | Endpoint::Star | Endpoint::Present | Endpoint::Ornament => Method::Get,
            Endpoint::Manifest | Endpoint::Milk | Endpoint::Reset | Endpoint::Place
            | Endpoint::Wrap | Endpoint::QuotesReset | Endpoint::Draft => Method::Post,
            Endpoint::Undo => Method::Put,
            Endpoint::Remove => Method::Delete,
        }
    }

    pub open spec fn path_spec(self) -> Seq<char> {
        match self {
            Endpoint::Seek => "/-1/seek"@,
            Endpoint::Dest => "/2/dest"@,
            Endpoint::Key => "/2/key"@,
            Endpoint::Manifest => "/5/manifest"@,
            Endpoint::Milk => "/9/milk"@,
            Endpoint::Board => "/12/board"@,
            Endpoint::Reset => "/12/reset"@,
            Endpoint::Place => "/12/place/{team}/{column}"@,
            Endpoint::Wrap => "/16/wrap"@,
            Endpoint::Unwrap => "/16/unwrap"@,
            Endpoint::QuotesReset => "/19/reset"@,
            Endpoint::Cite => "/19/cite/{id}"@,
            Endpoint::Remove => "/19/remove/{id}"@,
            Endpoint::Undo => "/19/undo/{id}"@,
            Endpoint::Draft => "/19/draft"@,
            Endpoint::Star => "/23/star"@,
            Endpoint::Present => "/23/present/{color}"@,
            Endpoint::Ornament => "/23/ornament/{state}/{n}"@,
        }
    }

    /// The path pattern of the route; `{name}` stands for one segment.
    pub fn path(&self) -> (r: &'static str)
        ensures
            r@ == self.path_spec(),
    {
        match self {
            Endpoint::Seek => "/-1/seek",
            Endpoint::Dest => "/2/dest",
            Endpoint::Key => "/2/key",
            Endpoint::Manifest => "/5/manifest",
            Endpoint::Milk => "/9/milk",
            Endpoint::Board => "/12/board",
            Endpoint::Reset => "/12/reset",
            Endpoint::Place => "/12/place/{team}/{column}",
            Endpoint::Wrap => "/16/wrap",
            Endpoint::Unwrap => "/16/unwrap",
            Endpoint::QuotesReset => "/19/reset",
            Endpoint::Cite => "/19/cite/{id}",
            Endpoint::Remove => "/19/remove/{id}",
            Endpoint::Undo => "/19/undo/{id}",
            Endpoint::Draft => "/19/draft",
            Endpoint::Star => "/23/star",
            Endpoint::Present => "/23/present/{color}",
            Endpoint::Ornament => "/23/ornament/{state}/{n}",
        }
    }
}

/// Appends the routes of one day to the table.
fn extend_routes(table: &mut Vec<Endpoint>, day: Vec<Endpoint>)
    ensures
        final(table)@ == old(table)@ + day@,
{
    let mut i: usize = 0;
    while i < day.len()
        invariant
            i <= day@.len(),
            table@ == old(table)@ + day@.take(i as int),
        decreases day@.len() - i,
    {
        assert(day@.take(i as int + 1) =~= day@.take(i as int).push(day@[i as int]));
        table.push(day[i]);
        i += 1;
    }
    assert(day@.take(day@.len() as int) =~= day@);
}

/// The routes of all days, day by day.
pub fn get_router() -> (r: Vec<Endpoint>)
    ensures
        r@ == day_1::routes() + day_2::routes() + day_5::routes() + day_9::routes()
            + day_12::routes() + day_16::routes() + day_19::routes() + day_23::routes(),
{
    let mut table: Vec<Endpoint> = Vec::new();
    extend_routes(&mut table, day_1::get_router());
    extend_routes(&mut table, day_2::get_router());
    extend_routes(&mut table, day_5::get_router());
    extend_routes(&mut table, day_9::get_router());
    extend_routes(&mut table, day_12::get_router());
    extend_routes(&mut table, day_16::get_router());
    extend_routes(&mut table, day_19::get_router());
    extend_routes(&mut table, day_23::get_router());
    assert(table@ =~= Seq::<Endpoint>::empty() + day_1::routes() + day_2::routes()
        + day_5::routes() + day_9::routes() + day_12::routes() + day_16::routes()
        + day_19::routes() + day_23::routes());
    table
}

} // verus!
