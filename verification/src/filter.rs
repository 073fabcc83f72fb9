//! Which candidates are shown for a query, and in what order.
use vstd::prelude::*;
use crate::matcher::{match_items, names, pairs, ranking, texts, Scored, MAX_QUERY_CHARS};

verus! {

/// Whether a candidate with this score is shown for this query: always for
/// the empty query, else only with a score above zero.
pub open spec fn admits(query: Seq<char>, score: nat) -> bool {
    query.len() == 0 || score > 0
}

/// The shown candidates: the admitted entries of the ranked list, in its
/// order.
pub open spec fn shown(query: Seq<char>, ranked: Seq<(Seq<char>, nat)>) -> Seq<Seq<char>> {
    names(ranked.filter(|p: (Seq<char>, nat)| admits(query, p.1)))
}

/// Filtering the list with one more entry at its end.
pub proof fn lemma_shown_push(query: Seq<char>, ranked: Seq<(Seq<char>, nat)>, p: (Seq<char>, nat))
    ensures
        shown(query, ranked.push(p)) == if admits(query, p.1) {
            shown(query, ranked).push(p.0)
        } else {
            shown(query, ranked)
        },
{
    let keep = |p: (Seq<char>, nat)| admits(query, p.1);
    reveal(Seq::filter);
    assert(ranked.push(p).drop_last() =~= ranked);
    assert(ranked.push(p).last() == p);
    if admits(query, p.1) {
        assert(names(ranked.filter(keep).push(p)) =~= names(ranked.filter(keep)).push(p.0));
    }
}

/// Whether some entry of the ranked list holds the text `t` with a score that
/// the query admits.
pub open spec fn admitted(query: Seq<char>, ranked: Seq<(Seq<char>, nat)>, t: Seq<char>) -> bool {
    exists|j: int|
        #![trigger ranked[j]]
        0 <= j < ranked.len() && ranked[j].0 == t && admits(query, ranked[j].1)
}

/// Whether some entry of the ranked list holds the text `t` with a score
/// above zero.
pub open spec fn scored_above_zero(ranked: Seq<(Seq<char>, nat)>, t: Seq<char>) -> bool {
    exists|j: int| #![trigger ranked[j]] 0 <= j < ranked.len() && ranked[j].0 == t && ranked[j].1 > 0
}

/// A text is shown exactly if an entry that the query admits holds it.
pub proof fn lemma_shown_contains(query: Seq<char>, ranked: Seq<(Seq<char>, nat)>, t: Seq<char>)
    ensures
        shown(query, ranked).contains(t) <==> admitted(query, ranked, t),
    decreases ranked.len(),
{
    if ranked.len() == 0 {
        reveal(Seq::filter);
        assert(shown(query, ranked) =~= Seq::empty());
    } else {
        let init = ranked.drop_last();
        let last = ranked.last();
        assert(ranked =~= init.push(last));
        lemma_shown_push(query, init, last);
        lemma_shown_contains(query, init, t);
        let s0 = shown(query, init);
        let s1 = shown(query, ranked);
        if s1.contains(t) {
            let k = choose|k: int| 0 <= k < s1.len() && s1[k] == t;
            if admits(query, last.1) && k == s0.len() {
                assert(ranked[ranked.len() - 1].0 == t);
            } else {
                assert(s0[k] == t);
                assert(s0.contains(t));
                let j = choose|j: int|
                    #![trigger init[j]]
                    0 <= j < init.len() && init[j].0 == t && admits(query, init[j].1);
                assert(ranked[j] == init[j]);
            }
            assert(admitted(query, ranked, t));
        }
        if admitted(query, ranked, t) {
            let j = choose|j: int|
                #![trigger ranked[j]]
                0 <= j < ranked.len() && ranked[j].0 == t && admits(query, ranked[j].1);
            if j < init.len() {
                assert(init[j] == ranked[j]);
                assert(admitted(query, init, t));
                let k = choose|k: int| 0 <= k < s0.len() && s0[k] == t;
                assert(s1[k] == t);
            } else {
                assert(s1[s1.len() - 1] == t);
            }
            assert(s1.contains(t));
        }
    }
}

/// For the empty query every entry is shown, in the order of the ranked list.
pub proof fn lemma_empty_query_shows_all(query: Seq<char>, ranked: Seq<(Seq<char>, nat)>)
    requires
        query.len() == 0,
    ensures
        shown(query, ranked) == names(ranked),
    decreases ranked.len(),
{
    if ranked.len() == 0 {
        reveal(Seq::filter);
        assert(shown(query, ranked) =~= names(ranked));
    } else {
        let init = ranked.drop_last();
        let last = ranked.last();
        assert(ranked =~= init.push(last));
        lemma_shown_push(query, init, last);
        lemma_empty_query_shows_all(query, init);
        assert(names(init.push(last)) =~= names(init).push(last.0));
    }
}

/// For a query that is not empty, a text is shown exactly if some entry
/// holds it with a score above zero: what is shown was scored above zero,
/// and a text that no entry scores above zero is absent.
pub proof fn lemma_query_shows_positive_scores(
    query: Seq<char>,
    ranked: Seq<(Seq<char>, nat)>,
    t: Seq<char>,
)
    requires
        query.len() > 0,
    ensures
        shown(query, ranked).contains(t) <==> scored_above_zero(ranked, t),
{
    lemma_shown_contains(query, ranked, t);
    if admitted(query, ranked, t) {
        let j = choose|j: int|
            #![trigger ranked[j]]
            0 <= j < ranked.len() && ranked[j].0 == t && admits(query, ranked[j].1);
        assert(ranked[j].1 > 0);
    }
    if scored_above_zero(ranked, t) {
        let j = choose|j: int|
            #![trigger ranked[j]]
            0 <= j < ranked.len() && ranked[j].0 == t && ranked[j].1 > 0;
        assert(admits(query, ranked[j].1));
    }
}

/// How many entries of the ranked list hold the text `t` with a score that
/// the query admits.
pub open spec fn admitted_count(
    query: Seq<char>,
    ranked: Seq<(Seq<char>, nat)>,
    t: Seq<char>,
) -> nat {
    ranked.filter(|p: (Seq<char>, nat)| p.0 == t && admits(query, p.1)).len()
}

/// A text is shown as often as entries that the query admits hold it: none
/// of them is missing, and an entry that the query does not admit adds
/// nothing.
pub proof fn lemma_shown_count(query: Seq<char>, ranked: Seq<(Seq<char>, nat)>, t: Seq<char>)
    ensures
        shown(query, ranked).to_multiset().count(t) == admitted_count(query, ranked, t),
    decreases ranked.len(),
{
    let holds = |p: (Seq<char>, nat)| p.0 == t && admits(query, p.1);
    reveal(Seq::filter);
    if ranked.len() == 0 {
        assert(shown(query, ranked) =~= Seq::empty());
        vstd::seq_lib::to_multiset_contains(shown(query, ranked), t);
    } else {
        let init = ranked.drop_last();
        let last = ranked.last();
        assert(ranked =~= init.push(last));
        lemma_shown_push(query, init, last);
        lemma_shown_count(query, init, t);
        if admits(query, last.1) {
            vstd::seq_lib::to_multiset_build(shown(query, init), last.0);
        }
        assert(ranked.filter(holds) == if holds(last) {
            init.filter(holds).push(last)
        } else {
            init.filter(holds)
        });
    }
}

/// No more is shown than was ranked.
pub proof fn lemma_shown_len(query: Seq<char>, ranked: Seq<(Seq<char>, nat)>)
    ensures
        shown(query, ranked).len() <= ranked.len(),
{
    ranked.lemma_filter_len(|p: (Seq<char>, nat)| admits(query, p.1));
}

/// Picks from a ranked list what is shown for `query`.
pub fn select_visible(query: &str, ranked: &Vec<Scored>) -> (items: Vec<String>)
    ensures
        texts(items@) == shown(query@, pairs(ranked@)),
{
    let show_all: bool = query.is_empty();
    let mut items: Vec<String> = Vec::new();
    let mut i: usize = 0;
    assert(pairs(ranked@).take(0) =~= Seq::empty());
    assert(texts(items@) =~= shown(query@, pairs(ranked@).take(0))) by {
        reveal(Seq::filter);
    }
    while i < ranked.len()
        invariant
            0 <= i <= ranked.len(),
            show_all == (query@.len() == 0),
            texts(items@) == shown(query@, pairs(ranked@).take(i as int)),
        decreases ranked.len() - i,
    {
        let entry: &Scored = &ranked[i];
        proof {
            let all = pairs(ranked@);
            assert(all.take(i + 1) =~= all.take(i as int).push(all[i as int]));
            lemma_shown_push(query@, all.take(i as int), all[i as int]);
        }
        if show_all || entry.score > 0 {
            let item: String = entry.item.clone();
            assert(texts(items@.push(item)) =~= texts(items@).push(item@));
            items.push(item);
        }
        i += 1;
    }
    assert(pairs(ranked@).take(ranked.len() as int) =~= pairs(ranked@));
    items
}

/// Ranks the candidates for `query` and keeps what is shown: every
/// candidate for the empty query, else those scored above zero, in the order
/// of the ranking.
pub fn recompute(query: &str, candidates: &Vec<String>) -> (items: Vec<String>)
    requires
        query@.len() <= MAX_QUERY_CHARS,
    ensures
        texts(items@) == shown(query@, ranking(query@, texts(candidates@))),
        items@.len() <= candidates@.len(),
        query@.len() == 0 ==> texts(items@).to_multiset() == texts(candidates@).to_multiset(),
        query@.len() > 0 ==> forall|t: Seq<char>|
            texts(items@).contains(t) <==> scored_above_zero(
                ranking(query@, texts(candidates@)),
                t,
            ),
        forall|t: Seq<char>| texts(items@).contains(t) ==> texts(candidates@).contains(t),
{
    let ranked: Vec<Scored> = match_items(query, candidates);
    let items: Vec<String> = select_visible(query, &ranked);
    proof {
        let all = ranking(query@, texts(candidates@));
        lemma_shown_len(query@, all);
        if query@.len() == 0 {
            lemma_empty_query_shows_all(query@, all);
        }
        assert forall|t: Seq<char>| texts(items@).contains(t) implies texts(candidates@).contains(
            t,
        ) by {
            lemma_shown_contains(query@, all, t);
            let j = choose|j: int|
                #![trigger all[j]]
                0 <= j < all.len() && all[j].0 == t && admits(query@, all[j].1);
            assert(names(all)[j] == t);
            assert(names(all).contains(t));
            vstd::seq_lib::to_multiset_contains(names(all), t);
            vstd::seq_lib::to_multiset_contains(texts(candidates@), t);
        }
        if query@.len() > 0 {
            assert forall|t: Seq<char>|
                texts(items@).contains(t) <==> scored_above_zero(all, t) by {
                lemma_query_shows_positive_scores(query@, all, t);
            }
        }
    }
    items
}

} // verus!
