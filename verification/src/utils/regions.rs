//! The region table: administrative regions, found by their full name.

use crate::utils::text::{split, split_spec, views};
use vstd::prelude::*;

verus! {

/// The character that separates the names in a query.
pub const NAME_SEPARATOR: char = '#';

/// The centre of a region. Each coordinate is carried as the bit pattern of
/// its IEEE-754 double-precision value, so that none is rounded on the way.
#[derive(Debug, Clone, Copy, PartialEq, Eq)]
pub struct Location {
    pub lat: u64,
    pub lng: u64,
}

/// One administrative region of the table.
#[derive(Debug, Clone, PartialEq, Eq)]
pub struct Region {
    pub id: String,
    /// The short name, as the page shows it in its lists.
    pub name: String,
    /// The full name, by which a region is looked up.
    pub fullname: String,
    pub location: Location,
    /// The positions of the child regions in the table, if any.
    pub cidx: Option<Vec<i32>>,
}

/// The names that a query holds: its pieces between the separators.
pub open spec fn query_names(query: Seq<char>) -> Seq<Seq<char>> {
    split_spec(query, NAME_SEPARATOR)
}

/// The query names this full name: one of its pieces is exactly `fullname`.
pub open spec fn names_region(query: Seq<char>, fullname: Seq<char>) -> bool {
    query_names(query).contains(fullname)
}

/// `at` is the position of the first region of the table that `query` names.
pub open spec fn is_first_named(regions: Seq<Region>, query: Seq<char>, at: int) -> bool {
    &&& 0 <= at < regions.len()
    &&& names_region(query, regions[at].fullname@)
    &&& forall|earlier: int| 0 <= earlier < at ==> !names_region(query, #[trigger] regions[earlier].fullname@)
}

/// The first region of the table that `query` names, if there is one.
pub open spec fn lookup_spec(regions: Seq<Region>, query: Seq<char>) -> Option<Region> {
    if exists|at: int| is_first_named(regions, query, at) {
        Some(regions[choose|at: int| is_first_named(regions, query, at)])
    } else {
        None
    }
}

/// Where the query names a region, some region is the first that it names.
proof fn lemma_some_region_is_first(regions: Seq<Region>, query: Seq<char>, at: int)
    requires
        0 <= at < regions.len(),
        names_region(query, regions[at].fullname@),
    ensures
        exists|first: int| is_first_named(regions, query, first),
    decreases at,
{
    if forall|earlier: int|
        0 <= earlier < at ==> !names_region(query, #[trigger] regions[earlier].fullname@) {
        assert(is_first_named(regions, query, at));
    } else {
        let earlier = choose|earlier: int|
            0 <= earlier < at && names_region(query, #[trigger] regions[earlier].fullname@);
        lemma_some_region_is_first(regions, query, earlier);
    }
}

/// What a lookup finds: the region of the table that the query names and
/// that no named region precedes; and nothing exactly where the query names
/// no region of the table.
pub proof fn lemma_lookup_spec(regions: Seq<Region>, query: Seq<char>)
    ensures
        match lookup_spec(regions, query) {
            Some(region) => exists|at: int|
                is_first_named(regions, query, at) && regions[at] == region,
            None => forall|at: int|
                0 <= at < regions.len() ==> !names_region(query, #[trigger] regions[at].fullname@),
        },
{
    if exists|at: int| is_first_named(regions, query, at) {
        let at = choose|at: int| is_first_named(regions, query, at);
        assert(is_first_named(regions, query, at) && regions[at] == lookup_spec(
            regions,
            query,
        )->Some_0);
    } else {
        assert forall|at: int| 0 <= at < regions.len() implies !names_region(
            query,
            #[trigger] regions[at].fullname@,
        ) by {
            if names_region(query, regions[at].fullname@) {
                lemma_some_region_is_first(regions, query, at);
            }
        }
    }
}

/// Whether one of `names` is exactly `fullname`.
fn is_named(names: &Vec<String>, fullname: &String) -> (named: bool)
    ensures
        named == views(names@).contains(fullname@),
{
    let mut i: usize = 0;
    while i < names.len()
        invariant
            i <= names.len(),
            forall|k: int| 0 <= k < i ==> views(names@)[k] != fullname@,
        decreases names.len() - i,
    {
        if names[i] == *fullname {
            assert(views(names@)[i as int] == fullname@);
            return true;
        }
        i += 1;
    }
    false
}

impl Region {
    /// Looks a region up by full name. `region_full_name` may hold several
    /// names with `#` between them; the result is the first region of the
    /// table whose full name is exactly one of them, and `None` where the
    /// table holds no such region. No name matches in part.
    pub fn get_map_region_by_region_full_name<'a>(
        regions: &'a Vec<Region>,
        region_full_name: &str,
    ) -> (found: Option<&'a Region>)
        ensures
            match found {
                Some(region) => lookup_spec(regions@, region_full_name@) == Some(*region),
                None => lookup_spec(regions@, region_full_name@) is None,
            },
    {
        let names = split(region_full_name, NAME_SEPARATOR);
        let mut at: usize = 0;
        while at < regions.len()
            invariant
                at <= regions.len(),
                views(names@) == query_names(region_full_name@),
                forall|k: int|
                    0 <= k < at ==> !names_region(
                        region_full_name@,
                        #[trigger] regions@[k].fullname@,
                    ),
            decreases regions.len() - at,
        {
            if is_named(&names, &regions[at].fullname) {
                assert(is_first_named(regions@, region_full_name@, at as int));
                let ghost chosen = choose|k: int| is_first_named(regions@, region_full_name@, k);
                assert(chosen == at);
                return Some(&regions[at]);
            }
            at += 1;
        }
        None
    }
}

} // verus!
