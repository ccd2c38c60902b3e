//! Location, group and category matching.
//!
//! The catalog exposes no stable identifiers for venues, days or meals,
//! so everything is matched by case-insensitive substring against
//! human-readable names.  The venue convention — the first tag of a
//! location's special-group list carries the venue tag — is isolated
//! here so it can be updated in one place if the catalog changes shape.

use vstd::prelude::*;
use crate::text::{contains_ci, contains_ci_s};
use crate::catalog::{Location, MenuGroup, MenuCategory};
use crate::temporal::{Day, day_name, spec_day_name};

verus! {

/// A location is a matching candidate only when it has at least one
/// special-group tag.
pub open spec fn loc_matchable(l: Location) -> bool {
    l.group_tags@.len() > 0
}

/// A location matches a venue tag when its first special-group tag's
/// name contains the tag, case-insensitively.
pub open spec fn loc_matches(l: Location, tag: Seq<char>) -> bool {
    loc_matchable(l) && contains_ci_s(l.group_tags@[0].name@, tag)
}

/// `i` is the first index of `locs` whose location matches `tag`.
pub open spec fn is_first_loc_match(locs: Seq<Location>, tag: Seq<char>, i: int) -> bool {
    &&& 0 <= i < locs.len()
    &&& loc_matches(locs[i], tag)
    &&& forall|j: int| 0 <= j < i ==> !loc_matches(locs[j], tag)
}

/// Resolve which location corresponds to the venue named by `tag`: the
/// first location with a non-empty tag list whose first tag's name
/// contains `tag`, case-insensitively.  `None` means the venue is
/// unavailable this cycle, which callers answer with a fallback section
/// rather than a failure.
pub fn match_venue(locs: &Vec<Location>, tag: &str) -> (r: Option<usize>)
    ensures
        match r {
            Some(i) => is_first_loc_match(locs@, tag@, i as int),
            None => forall|j: int| 0 <= j < locs@.len() ==> !loc_matches(locs@[j], tag@),
        },
{
    let n = locs.len();
    let mut i: usize = 0;
    while i < n
        invariant
            n == locs@.len(),
            i <= n,
            forall|j: int| 0 <= j < i ==> !loc_matches(locs@[j], tag@),
        decreases n - i,
    {
        let l = &locs[i];
        if l.group_tags.len() > 0 {
            if contains_ci(l.group_tags[0].name.as_str(), tag) {
                return Some(i);
            }
        }
        i += 1;
    }
    None
}

/// A menu group matches when its name contains the needle,
/// case-insensitively.
pub open spec fn group_matches(g: MenuGroup, needle: Seq<char>) -> bool {
    contains_ci_s(g.name@, needle)
}

/// `i` is the first index of `groups` whose name contains `needle`.
pub open spec fn is_first_group_match(groups: Seq<MenuGroup>, needle: Seq<char>, i: int) -> bool {
    &&& 0 <= i < groups.len()
    &&& group_matches(groups[i], needle)
    &&& forall|j: int| 0 <= j < i ==> !group_matches(groups[j], needle)
}

/// The first menu group whose name contains `needle`, case-insensitively.
pub fn find_group_containing(groups: &Vec<MenuGroup>, needle: &str) -> (r: Option<usize>)
    ensures
        match r {
            Some(i) => is_first_group_match(groups@, needle@, i as int),
            None => forall|j: int| 0 <= j < groups@.len() ==> !group_matches(groups@[j], needle@),
        },
{
    let n = groups.len();
    let mut i: usize = 0;
    while i < n
        invariant
            n == groups@.len(),
            i <= n,
            forall|j: int| 0 <= j < i ==> !group_matches(groups@[j], needle@),
        decreases n - i,
    {
        if contains_ci(groups[i].name.as_str(), needle) {
            return Some(i);
        }
        i += 1;
    }
    None
}

/// The first menu group whose name contains the day's name: the
/// catalog keys its groups by human-readable day names, not by a stable
/// enumeration, and may not cover every day.
pub fn find_group_for_day(groups: &Vec<MenuGroup>, day: Day) -> (r: Option<usize>)
    ensures
        match r {
            Some(i) => is_first_group_match(groups@, spec_day_name(day), i as int),
            None => forall|j: int|
                0 <= j < groups@.len() ==> !group_matches(groups@[j], spec_day_name(day)),
        },
{
    find_group_containing(groups, day_name(day))
}

/// A menu category matches a meal query when its name contains the
/// query, case-insensitively.  The empty query matches every category.
pub open spec fn cat_matches(c: MenuCategory, query: Seq<char>) -> bool {
    contains_ci_s(c.name@, query)
}

/// `i` is the first index of `cats` whose name contains `needle`.
pub open spec fn is_first_cat_match(cats: Seq<MenuCategory>, needle: Seq<char>, i: int) -> bool {
    &&& 0 <= i < cats.len()
    &&& cat_matches(cats[i], needle)
    &&& forall|j: int| 0 <= j < i ==> !cat_matches(cats[j], needle)
}

/// The first menu category whose name contains `needle`,
/// case-insensitively.
pub fn find_category_containing(cats: &Vec<MenuCategory>, needle: &str) -> (r: Option<usize>)
    ensures
        match r {
            Some(i) => is_first_cat_match(cats@, needle@, i as int),
            None => forall|j: int| 0 <= j < cats@.len() ==> !cat_matches(cats@[j], needle@),
        },
{
    let n = cats.len();
    let mut i: usize = 0;
    while i < n
        invariant
            n == cats@.len(),
            i <= n,
            forall|j: int| 0 <= j < i ==> !cat_matches(cats@[j], needle@),
        decreases n - i,
    {
        if contains_ci(cats[i].name.as_str(), needle) {
            return Some(i);
        }
        i += 1;
    }
    None
}

/// The indices of the categories whose names contain `query`, in order.
pub open spec fn matching_idxs(cats: Seq<MenuCategory>, query: Seq<char>) -> Seq<int>
    decreases cats.len(),
{
    if cats.len() == 0 {
        Seq::empty()
    } else if cat_matches(cats.last(), query) {
        matching_idxs(cats.drop_last(), query).push(cats.len() - 1)
    } else {
        matching_idxs(cats.drop_last(), query)
    }
}

/// Collect the indices of every category whose name contains `query`,
/// case-insensitively, in catalog order.
pub fn matching_category_indices(cats: &Vec<MenuCategory>, query: &str) -> (r: Vec<usize>)
    ensures
        r@.map_values(|u: usize| u as int) == matching_idxs(cats@, query@),
        forall|k: int| 0 <= k < r@.len() ==> r@[k] < cats@.len(),
{
    let n = cats.len();
    let mut out: Vec<usize> = Vec::new();
    let mut i: usize = 0;
    while i < n
        invariant
            n == cats@.len(),
            i <= n,
            out@.map_values(|u: usize| u as int) == matching_idxs(cats@.take(i as int), query@),
            forall|k: int| 0 <= k < out@.len() ==> out@[k] < cats@.len(),
        decreases n - i,
    {
        let ghost pre = out@;
        if contains_ci(cats[i].name.as_str(), query) {
            out.push(i);
        }
        proof {
            assert(cats@.take(i + 1).drop_last() =~= cats@.take(i as int));
            assert(cats@.take(i + 1).last() == cats@[i as int]);
            if cat_matches(cats@[i as int], query@) {
                assert(out@.map_values(|u: usize| u as int) =~= pre.map_values(
                    |u: usize| u as int,
                ).push(i as int));
            }
        }
        i += 1;
    }
    proof {
        assert(cats@.take(n as int) =~= cats@);
    }
    out
}

} // verus!
