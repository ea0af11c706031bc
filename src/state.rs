use vstd::prelude::*;

use crate::record::Hello;

verus! {

/// The records that every fresh store starts with, in order.
pub open spec fn seed_records() -> Seq<(u32, Seq<char>)> {
    seq![(1u32, "Jane Doe"@), (2u32, "Patrick Star"@)]
}

/// The abstract value of each record of a sequence, in order.
pub open spec fn views(s: Seq<Hello>) -> Seq<(u32, Seq<char>)> {
    s.map_values(|h: Hello| h@)
}

/// The record store: every record created so far, in the order of creation.
/// Duplicate ids are allowed; nothing is removed or changed in place.
pub struct AppState {
    hello: Vec<Hello>,
}

impl View for AppState {
    type V = Seq<(u32, Seq<char>)>;

    closed spec fn view(&self) -> Seq<(u32, Seq<char>)> {
        views(self.hello@)
    }
}

impl AppState {
    /// A store that holds the two seed records.
    pub fn new() -> (r: AppState)
        ensures
            r@ == seed_records(),
    {
        let mut hello: Vec<Hello> = Vec::new();
        hello.push(Hello::new(1, "Jane Doe"));
        hello.push(Hello::new(2, "Patrick Star"));
        let r = AppState { hello };
        assert(r@ =~= seed_records());
        r
    }

    /// The number of records held.
    pub fn len(&self) -> (r: usize)
        ensures
            r == self@.len(),
    {
        self.hello.len()
    }

    /// The record at position `i`, counted from the oldest.
    pub fn record(&self, i: usize) -> (r: &Hello)
        requires
            i < self@.len(),
        ensures
            r@ == self@[i as int],
    {
        &self.hello[i]
    }

    /// Appends `h` after every record already held.
    pub fn push(&mut self, h: Hello)
        ensures
            final(self)@ == old(self)@.push(h@),
    {
        self.hello.push(h);
        assert(final(self)@ =~= old(self)@.push(h@));
    }
}

} // verus!
