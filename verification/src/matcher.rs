//! The ranking of the candidates, which the `matchr` crate computes.
use vstd::prelude::*;

verus! {

/// The longest query, in characters, that is handed to the matcher.
///
/// For each character of the query the matcher adds at most ten to a running
/// score and then at most a tenth of the sum, and at the end it multiplies by
/// a hundred. After 128 characters the product is below 2^32, so the
/// arithmetic stays inside a machine word of 32 bits or more.
pub const MAX_QUERY_CHARS: usize = 128;

/// One candidate with the score that the matcher gave it.
pub struct Scored {
    pub item: String,
    pub score: usize,
}

/// The texts of a list of strings.
pub open spec fn texts(items: Seq<String>) -> Seq<Seq<char>> {
    items.map_values(|s: String| s@)
}

/// A ranked list as pairs of text and score.
pub open spec fn pairs(ranked: Seq<Scored>) -> Seq<(Seq<char>, nat)> {
    ranked.map_values(|m: Scored| (m.item@, m.score as nat))
}

/// The texts of a ranked list, in its order.
pub open spec fn names(ranked: Seq<(Seq<char>, nat)>) -> Seq<Seq<char>> {
    ranked.map_values(|p: (Seq<char>, nat)| p.0)
}

/// What `matchr::match_items` returns for a query and a list of candidates.
pub uninterp spec fn ranking(query: Seq<char>, items: Seq<Seq<char>>) -> Seq<(Seq<char>, nat)>;

/// Calls `matchr::match_items` on the query and the candidates.
///
/// The contract is taken on trust from that function: it returns every
/// candidate paired with its score; the result depends on the query and the
/// candidates alone; it holds each candidate once for each time it was
/// given, and nothing else. In what order they come is left to the matcher
/// and is part of the named result. Queries longer than
/// [`MAX_QUERY_CHARS`] are left out, since the score's arithmetic may
/// overflow on them.
#[verifier::external_body]
pub(crate) fn match_items(query: &str, items: &Vec<String>) -> (ranked: Vec<Scored>)
    requires
        query@.len() <= MAX_QUERY_CHARS,
    ensures
        pairs(ranked@) == ranking(query@, texts(items@)),
        ranked@.len() == items@.len(),
        names(pairs(ranked@)).to_multiset() == texts(items@).to_multiset(),
{
    let refs: Vec<&str> = items.iter().map(|s| s.as_str()).collect();
    matchr::match_items(query, &refs)
        .into_iter()
        .map(|(item, score)| Scored { item: item.to_string(), score })
        .collect()
}

} // verus!
