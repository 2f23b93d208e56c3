//! The sort parameter: fields with a direction, in order of precedence.

use crate::text::{join, join_strings, texts};
use vstd::prelude::*;

verus! {

/// Accumulates `field direction` entries; the first added sorts first.
pub struct SortOrderBuilder {
    order: Vec<String>,
}

impl View for SortOrderBuilder {
    /// The entries, each `field asc` or `field desc`.
    type V = Seq<Seq<char>>;

    closed spec fn view(&self) -> Seq<Seq<char>> {
        texts(self.order@)
    }
}

impl SortOrderBuilder {
    pub fn new() -> (r: Self)
        ensures
            r@ == Seq::<Seq<char>>::empty(),
    {
        let r = SortOrderBuilder { order: Vec::new() };
        proof {
            assert(texts(r.order@) =~= Seq::<Seq<char>>::empty());
        }
        r
    }

    /// The sort parameter: the entries joined by commas.
    pub fn build(&self) -> (r: String)
        ensures
            r@ == join(self@, ","@),
    {
        join_strings(&self.order, ",")
    }

    /// Appends `field asc`.
    pub fn asc(self, field: &str) -> (r: Self)
        ensures
            r@ == self@.push(field@ + " asc"@),
    {
        self.with_entry(field, " asc")
    }

    /// Appends `field desc`.
    pub fn desc(self, field: &str) -> (r: Self)
        ensures
            r@ == self@.push(field@ + " desc"@),
    {
        self.with_entry(field, " desc")
    }

    fn with_entry(self, field: &str, direction: &str) -> (r: Self)
        ensures
            r@ == self@.push(field@ + direction@),
    {
        let mut order = self.order;
        let ghost before = order@;
        let mut entry = String::from_str(field);
        entry.append(direction);
        order.push(entry);
        proof {
            assert(texts(order@) =~= texts(before).push(field@ + direction@));
        }
        SortOrderBuilder { order }
    }
}

} // verus!
