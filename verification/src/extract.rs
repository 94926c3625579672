//! The selection extractor's logic: what one accessibility query reports
//! about the focused element, and the concatenation of its selection ranges'
//! text in enumeration order with no inserted separators.
//!
//! The accessibility calls themselves run outside the library; they hand in a
//! [`FocusQuery`] describing what they found, and every outcome — including
//! every failure — collapses to a string here, never to an error.

use vstd::prelude::*;

verus! {

/// What a single accessibility query against the focused element reported.
/// Every variant but `Selection` means "no selection", which is the common,
/// non-exceptional outcome.
pub enum FocusQuery {
    /// No element currently has input focus.
    NoFocusedElement,
    /// The focused element does not support text-selection introspection.
    NoTextCapability,
    /// An accessibility call failed unexpectedly (for instance, the element
    /// became invalid between calls); swallowed, never surfaced as an error.
    QueryFailed,
    /// The active selection ranges' text, in the order the platform
    /// enumerated them. Zero ranges is a valid report.
    Selection(Vec<String>),
}

/// The concatenation of a sequence of texts, in order, with no separator.
pub open spec fn concat_spec(ss: Seq<Seq<char>>) -> Seq<char>
    decreases ss.len(),
{
    if ss.len() == 0 {
        Seq::empty()
    } else {
        concat_spec(ss.drop_last()) + ss.last()
    }
}

/// The texts of a sequence of ranges, as sequences of characters.
pub open spec fn range_views(rs: Seq<String>) -> Seq<Seq<char>> {
    rs.map_values(|s: String| s@)
}

/// What extraction yields for a query report: the concatenated range texts
/// when the element had a selection to enumerate, and the empty string for
/// every other outcome.
pub open spec fn extract_spec(q: FocusQuery) -> Seq<char> {
    match q {
        FocusQuery::Selection(rs) => concat_spec(range_views(rs@)),
        _ => Seq::empty(),
    }
}

/// Concatenate the ranges' text in enumeration order, no separator inserted.
pub fn concat_ranges(ranges: &Vec<String>) -> (r: String)
    ensures
        r@ == concat_spec(range_views(ranges@)),
{
    let mut r = String::new();
    let mut i: usize = 0;
    while i < ranges.len()
        invariant
            i <= ranges.len(),
            r@ == concat_spec(range_views(ranges@).take(i as int)),
        decreases ranges.len() - i,
    {
        let s: &String = &ranges[i];
        r.append(s.as_str());
        proof {
            let v = range_views(ranges@);
            assert(v.take(i + 1).drop_last() =~= v.take(i as int));
            assert(v.take(i + 1).last() == v[i as int]);
        }
        i = i + 1;
    }
    proof {
        assert(range_views(ranges@).take(ranges@.len() as int) =~= range_views(ranges@));
    }
    r
}

/// Collapse one query report to its extracted text. Absent focus, a missing
/// text capability, a failed call and zero ranges all yield the empty string
/// — a valid result, not an error.
pub fn extract(q: &FocusQuery) -> (r: String)
    ensures
        r@ == extract_spec(*q),
{
    match q {
        FocusQuery::Selection(ranges) => concat_ranges(ranges),
        _ => String::new(),
    }
}

/// Every outcome short of an enumerated selection extracts the empty string
/// — a valid result, never an error: absent focus, a missing text
/// capability, a failed call, and an enumeration of zero ranges alike.
pub proof fn lemma_empty_outcomes(zero_ranges: Vec<String>)
    requires
        zero_ranges@.len() == 0,
    ensures
        extract_spec(FocusQuery::NoFocusedElement) == Seq::<char>::empty(),
        extract_spec(FocusQuery::NoTextCapability) == Seq::<char>::empty(),
        extract_spec(FocusQuery::QueryFailed) == Seq::<char>::empty(),
        extract_spec(FocusQuery::Selection(zero_ranges)) == Seq::<char>::empty(),
{
}

/// Ranges are concatenated in enumeration order with nothing inserted
/// between them: one more range appends exactly its text at the end.
pub proof fn lemma_concat_in_order(ss: Seq<Seq<char>>, t: Seq<char>)
    ensures
        concat_spec(ss.push(t)) == concat_spec(ss) + t,
{
    assert(ss.push(t).drop_last() =~= ss);
}

} // verus!
