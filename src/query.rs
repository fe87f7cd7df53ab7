//! The page-one search address for a list of set codes.
use vstd::prelude::*;
use crate::text::{split_on, join_with, views_of, split_str, join_strs};

verus! {

/// Everything of the address that comes before the set filter.
pub const QUERY_HEAD: &'static str =
    "https://api.scryfall.com/cards/search?order=name&format=csv&q=(-t%3ABasic+AND+game%3Apaper+AND+(";

/// Everything of the address that comes after the set filter.
pub const QUERY_TAIL: &'static str = "))&page=1";

/// The filter term for one set code, inserted verbatim.
pub open spec fn set_term(code: Seq<char>) -> Seq<char> {
    "set%3A"@ + code
}

/// The filter over the comma-separated codes: one term per code, joined by `OR`.
pub open spec fn set_filter(sets: Seq<char>) -> Seq<char> {
    join_with(split_on(sets, ',').map_values(|c: Seq<char>| set_term(c)), "+OR+"@)
}

/// The address of the first result page for the comma-separated set codes.
pub open spec fn query_url(sets: Seq<char>) -> Seq<char> {
    QUERY_HEAD@ + set_filter(sets) + QUERY_TAIL@
}

/// Builds the address of the first result page: non-basic paper cards of the
/// given sets, as CSV, ordered by name. Codes are not checked; an empty list
/// gives a filter on the empty code.
pub fn build_query_url(sets: &str) -> (r: String)
    ensures
        r@ == query_url(sets@),
{
    let codes = split_str(sets, ',');
    let mut terms: Vec<String> = Vec::new();
    let mut i: usize = 0;
    while i < codes.len()
        invariant
            i <= codes.len(),
            views_of(terms@) == views_of(codes@.take(i as int)).map_values(|c: Seq<char>| set_term(c)),
        decreases codes.len() - i,
    {
        let term = String::from_str("set%3A").concat(codes[i].as_str());
        assert(term@ == set_term(codes@[i as int]@));
        let ghost prev = terms@;
        terms.push(term);
        assert(views_of(terms@) =~= views_of(prev).push(term@));
        assert(views_of(codes@.take(i + 1)) =~= views_of(codes@.take(i as int)).push(codes@[i as int]@));
        i = i + 1;
        assert(views_of(terms@) =~= views_of(codes@.take(i as int)).map_values(|c: Seq<char>| set_term(c)));
    }
    assert(codes@.take(codes.len() as int) == codes@);
    let filter = join_strs(&terms, "+OR+");
    String::from_str(QUERY_HEAD).concat(filter.as_str()).concat(QUERY_TAIL)
}

} // verus!
