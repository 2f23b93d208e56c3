//! Facet results arrive as arrays that alternate a label and its count;
//! this module pairs them up.

use vstd::prelude::*;

verus! {

/// One element of a facet result array, as far as pairing reads it.
#[derive(Debug)]
pub enum FacetValue {
    /// A string.
    Text(String),
    /// A non-negative integer.
    Count(u64),
    /// Anything else.
    Other,
}

/// The label an element gives: its text, or the empty text.
pub open spec fn label_of(v: FacetValue) -> Seq<char> {
    match v {
        FacetValue::Text(s) => s@,
        _ => Seq::empty(),
    }
}

/// The count an element gives: its low 32 bits when it is a count, else 0.
pub open spec fn count_of(v: FacetValue) -> u32 {
    match v {
        FacetValue::Count(n) => n as u32,
        _ => 0,
    }
}

/// Elements `2i` and `2i + 1` as the label and the count of pair `i`; a last
/// element without a partner is left out.
pub open spec fn paired_counts(vs: Seq<FacetValue>) -> Seq<(Seq<char>, u32)> {
    Seq::new(vs.len() / 2, |i: int| (label_of(vs[2 * i]), count_of(vs[2 * i + 1])))
}

/// The texts of a list of labelled counts.
pub open spec fn counts_view(v: Seq<(String, u32)>) -> Seq<(Seq<char>, u32)> {
    v.map_values(|p: (String, u32)| (p.0@, p.1))
}

fn label(v: &FacetValue) -> (r: String)
    ensures
        r@ == label_of(*v),
{
    match v {
        FacetValue::Text(s) => s.clone(),
        _ => String::new(),
    }
}

fn count(v: &FacetValue) -> (r: u32)
    ensures
        r == count_of(*v),
{
    match v {
        FacetValue::Count(n) => {
            #[verifier::truncate]
            (*n as u32)
        },
        _ => 0,
    }
}

/// The labelled counts of an alternating label/count array.
pub fn pair_counts(values: &Vec<FacetValue>) -> (r: Vec<(String, u32)>)
    ensures
        counts_view(r@) == paired_counts(values@),
{
    let ghost want = paired_counts(values@);
    let mut r: Vec<(String, u32)> = Vec::new();
    let n = values.len() / 2;
    let mut i: usize = 0;
    while i < n
        invariant
            n == values@.len() / 2,
            values@.len() <= usize::MAX,
            0 <= i <= n,
            want == paired_counts(values@),
            counts_view(r@) == want.take(i as int),
        decreases n - i,
    {
        let ghost before = r@;
        let j = i + i;
        let pair = (label(&values[j]), count(&values[j + 1]));
        r.push(pair);
        proof {
            assert(counts_view(r@) =~= counts_view(before).push(want[i as int]));
            assert(want.take(i + 1) =~= want.take(i as int).push(want[i as int]));
        }
        i = i + 1;
    }
    proof {
        assert(want.take(i as int) =~= want);
    }
    r
}

} // verus!
