//! The filter rule: which branches a query keeps, and in what order.
use vstd::prelude::*;
use crate::git::branching::BranchInfo;
use crate::text::{contains, has_substring, lower_of, lowercase};

verus! {

/// A branch name matches a query when the query is empty or the name,
/// lower-cased, contains the lower-cased query.
pub open spec fn name_matches(query: Seq<char>, name: Seq<char>) -> bool {
    query.len() == 0 || has_substring(lower_of(name), lower_of(query))
}

/// Positions in `items` of the branches that `query` keeps, in increasing order.
pub open spec fn matching_indices(items: Seq<BranchInfo>, query: Seq<char>) -> Seq<int>
    decreases items.len(),
{
    if items.len() == 0 {
        Seq::empty()
    } else {
        let rest = matching_indices(items.drop_last(), query);
        if name_matches(query, items.last().branch_name@) {
            rest.push(items.len() - 1)
        } else {
            rest
        }
    }
}

/// The indices as mathematical integers.
pub open spec fn as_positions(v: Seq<usize>) -> Seq<int> {
    v.map_values(|i: usize| i as int)
}

/// Decides the matching rule for a name and a query that were both
/// lower-cased already.
pub fn matches_folded(folded_query: &str, folded_name: &str) -> (r: bool)
    ensures
        r == has_substring(folded_name@, folded_query@),
{
    contains(folded_name, folded_query)
}

/// Decides whether `query` keeps the branch called `name`.
pub fn name_matches_query(query: &str, name: &str) -> (r: bool)
    ensures
        r == name_matches(query@, name@),
{
    if query.is_empty() {
        true
    } else {
        let q = lowercase(query);
        let n = lowercase(name);
        matches_folded(q.as_str(), n.as_str())
    }
}

/// Positions of the branches that `query` keeps.
pub fn filtered_indices(items: &Vec<BranchInfo>, query: &String) -> (r: Vec<usize>)
    ensures
        as_positions(r@) == matching_indices(items@, query@),
{
    let mut out: Vec<usize> = Vec::new();
    let mut i: usize = 0;
    while i < items.len()
        invariant
            i <= items@.len(),
            as_positions(out@) == matching_indices(items@.take(i as int), query@),
        decreases items.len() - i,
    {
        let keep = name_matches_query(query.as_str(), items[i].branch_name.as_str());
        proof {
            assert(items@.take(i + 1).drop_last() =~= items@.take(i as int));
        }
        if keep {
            out.push(i);
            assert(as_positions(out@) =~= matching_indices(items@.take(i + 1), query@));
        }
        i = i + 1;
    }
    assert(items@.take(i as int) =~= items@);
    out
}

/// The filter keeps exactly the branches whose name contains the query,
/// ignoring case, in the order of the full list; the empty query keeps every
/// branch in its place.
pub proof fn lemma_filter_is_matching_subsequence(items: Seq<BranchInfo>, query: Seq<char>)
    ensures
        forall|k: int|
            0 <= k < matching_indices(items, query).len() ==> {
                let i = #[trigger] matching_indices(items, query)[k];
                0 <= i < items.len() && name_matches(query, items[i].branch_name@)
            },
        forall|k: int, l: int|
            0 <= k < l < matching_indices(items, query).len() ==> #[trigger] matching_indices(
                items,
                query,
            )[k] < #[trigger] matching_indices(items, query)[l],
        forall|i: int|
            0 <= i < items.len() && name_matches(query, #[trigger] items[i].branch_name@)
                ==> matching_indices(items, query).contains(i),
        query.len() == 0 ==> matching_indices(items, query) == Seq::new(
            items.len(),
            |i: int| i,
        ),
    decreases items.len(),
{
    if items.len() > 0 {
        let init = items.drop_last();
        lemma_filter_is_matching_subsequence(init, query);
        let m = matching_indices(items, query);
        let r = matching_indices(init, query);
        assert forall|i: int|
            0 <= i < items.len() && name_matches(query, #[trigger] items[i].branch_name@)
                implies m.contains(i) by {
            if i < items.len() - 1 {
                assert(init[i] == items[i]);
                assert(r.contains(i));
                let k = choose|k: int| 0 <= k < r.len() && r[k] == i;
                assert(m[k] == i);
            } else {
                assert(m[m.len() - 1] == i);
            }
        }
        if query.len() == 0 {
            assert(m =~= Seq::new(items.len(), |i: int| i));
        }
    }
}

} // verus!
