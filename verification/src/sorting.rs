//! Putting suggestions in their listed order.

use std::cmp::Ordering;
use vstd::prelude::*;
use crate::listing::{comes_before, filter_entries, kept, listed_before, paths, sorted, DirEntry, Listed};

verus! {

/// The order of two suggestions.
pub fn order_of(a: &Listed, b: &Listed) -> (order: Ordering)
    ensures
        order is Less <==> listed_before(*a, *b),
        order is Greater <==> listed_before(*b, *a),
{
    proof {
        crate::listing::lemma_listing_order(*a, *b, *a);
    }
    if comes_before(a, b) {
        Ordering::Less
    } else if comes_before(b, a) {
        Ordering::Greater
    } else {
        Ordering::Equal
    }
}

/// `Vec::sort_by` of the standard library, with `order_of` as comparator.
/// The call keeps the elements and rearranges them so that none comes after
/// one that the comparator puts behind it. That is what the standard
/// library documents for a comparator that is a total order, which
/// `lemma_listing_order` shows of this one.
#[verifier::external_body]
fn sort_listed(list: &mut Vec<Listed>)
    ensures
        paths(final(list)@).to_multiset() == paths(old(list)@).to_multiset(),
        sorted(final(list)@),
{
    list.sort_by(|a, b| order_of(a, b));
}

/// The suggestions for `prefix` among the entries of a directory:
/// directories first, each group in alphabetical order. `dir` is the
/// directory part as it was typed.
pub fn list_matches(dir: &str, prefix: &str, entries: &Vec<DirEntry>) -> (list: Vec<Listed>)
    ensures
        paths(list@).to_multiset() == kept(entries@, dir@, prefix@).to_multiset(),
        sorted(list@),
{
    let mut list = filter_entries(dir, prefix, entries);
    sort_listed(&mut list);
    list
}

} // verus!
