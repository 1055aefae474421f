//! What the two API endpoints compute from the store: the maker listing,
//! optionally narrowed to one state, and the health summary.

use vstd::prelude::*;
use crate::state::{ApiMaker, ApiMakerState, MakerStore};

verus! {

/// Whether a maker in state `s` is listed under the optional state filter.
pub open spec fn state_selected(filter: Option<ApiMakerState>, s: ApiMakerState) -> bool {
    match filter {
        None => true,
        Some(f) => f == s,
    }
}

/// The predicate on makers of a state filter.
pub open spec fn selects(filter: Option<ApiMakerState>) -> spec_fn(ApiMaker) -> bool {
    |m: ApiMaker| state_selected(filter, m.state)
}

/// The predicate "has a current offer".
pub open spec fn has_offer() -> spec_fn(ApiMaker) -> bool {
    |m: ApiMaker| m.offer is Some
}

/// The makers listed for a state filter: those whose state equals the filter,
/// or all of them when there is none, in store order.
pub fn select_makers(makers: &Vec<ApiMaker>, filter: &Option<ApiMakerState>) -> (res: Vec<ApiMaker>)
    ensures
        res@ == makers@.filter(selects(*filter)),
{
    let mut res: Vec<ApiMaker> = Vec::new();
    let n = makers.len();
    for i in 0..n
        invariant
            n == makers.len(),
            res@ == makers@.take(i as int).filter(selects(*filter)),
    {
        let m = &makers[i];
        let keep = match filter {
            None => true,
            Some(f) => *f == m.state,
        };
        proof {
            assert(makers@.take(i + 1) =~= makers@.take(i as int).push(makers@[i as int]));
            makers@.take(i as int).lemma_filter_push(makers@[i as int], selects(*filter));
        }
        if keep {
            res.push(m.clone());
        }
    }
    proof {
        assert(makers@.take(n as int) =~= makers@);
    }
    res
}

/// What the health endpoint reports besides its fixed `"ok"` status.
pub struct HealthSummary {
    pub maker_count: usize,
    pub with_offer: usize,
    pub last_sync: Option<u64>,
}

/// The number of makers that carry a current offer.
pub open spec fn offer_count(makers: Seq<ApiMaker>) -> nat {
    makers.filter(has_offer()).len()
}

/// Summarises the store: how many makers it knows, how many of them carry an
/// offer, and when it was last synced.
pub fn health_summary(store: &MakerStore) -> (res: HealthSummary)
    ensures
        res.maker_count == store.makers@.len(),
        res.with_offer == offer_count(store.makers@),
        res.last_sync == store.last_sync,
{
    let n = store.makers.len();
    let mut with_offer: usize = 0;
    for i in 0..n
        invariant
            n == store.makers.len(),
            with_offer == offer_count(store.makers@.take(i as int)),
            with_offer <= i,
    {
        proof {
            let s = store.makers@;
            assert(s.take(i + 1) =~= s.take(i as int).push(s[i as int]));
            s.take(i as int).lemma_filter_push(s[i as int], has_offer());
        }
        if store.makers[i].offer.is_some() {
            with_offer = with_offer + 1;
        }
    }
    proof {
        assert(store.makers@.take(n as int) =~= store.makers@);
    }
    HealthSummary { maker_count: n, with_offer, last_sync: store.last_sync }
}

/// Without a state filter the listing is the whole store, in order.
pub proof fn lemma_unfiltered_lists_all(makers: Seq<ApiMaker>)
    ensures
        makers.filter(selects(None)) == makers,
    decreases makers.len(),
{
    if makers.len() > 0 {
        let init = makers.drop_last();
        lemma_unfiltered_lists_all(init);
        assert(makers =~= init.push(makers.last()));
        init.lemma_filter_push(makers.last(), selects(None));
    } else {
        makers.lemma_filter_len(selects(None));
        assert(makers.filter(selects(None)) =~= makers);
    }
}

/// Under a state filter, every listed maker is in that state, and every maker
/// of the store in that state is listed.
pub proof fn lemma_filtered_listing(makers: Seq<ApiMaker>, state: ApiMakerState)
    ensures
        forall|i: int|
            0 <= i < makers.filter(selects(Some(state))).len()
                ==> (#[trigger] makers.filter(selects(Some(state)))[i]).state == state,
        forall|i: int|
            0 <= i < makers.len() && (#[trigger] makers[i]).state == state
                ==> makers.filter(selects(Some(state))).contains(makers[i]),
{
    let p = selects(Some(state));
    assert forall|i: int| 0 <= i < makers.filter(p).len() implies (#[trigger] makers.filter(p)[i]).state == state by {
        makers.lemma_filter_pred(p, i);
    }
    assert forall|i: int| 0 <= i < makers.len() && (#[trigger] makers[i]).state == state implies makers.filter(p).contains(makers[i]) by {
        makers.lemma_filter_contains(p, i);
    }
}

/// The health summary never counts more makers with an offer than makers.
pub proof fn lemma_offers_within_makers(makers: Seq<ApiMaker>)
    ensures
        offer_count(makers) <= makers.len(),
{
    makers.lemma_filter_len(has_offer());
}

/// `a` is `b` with some elements left out: the elements of `a` stand in `b`
/// in the same order.
pub open spec fn is_subsequence(a: Seq<ApiMaker>, b: Seq<ApiMaker>) -> bool {
    exists|idx: Seq<int>|
        {
            &&& #[trigger] idx.len() == a.len()
            &&& forall|k: int| 0 <= k < idx.len() ==> 0 <= #[trigger] idx[k] < b.len()
            &&& forall|k: int, l: int| 0 <= k < l < idx.len() ==> idx[k] < idx[l]
            &&& forall|k: int| 0 <= k < idx.len() ==> a[k] == b[#[trigger] idx[k]]
        }
}

/// Every filtered listing is a subsequence of the full listing.
pub proof fn lemma_listing_is_subsequence(makers: Seq<ApiMaker>, filter: Option<ApiMakerState>)
    ensures
        is_subsequence(makers.filter(selects(filter)), makers.filter(selects(None))),
{
    lemma_unfiltered_lists_all(makers);
    lemma_filter_subsequence(makers, selects(filter));
}

proof fn lemma_filter_subsequence(makers: Seq<ApiMaker>, p: spec_fn(ApiMaker) -> bool)
    ensures
        is_subsequence(makers.filter(p), makers),
    decreases makers.len(),
{
    if makers.len() == 0 {
        makers.lemma_filter_len(p);
        let idx = Seq::<int>::empty();
        assert(makers.filter(p).len() == 0);
        assert(idx.len() == makers.filter(p).len());
        assert(is_subsequence(makers.filter(p), makers));
    } else {
        let init = makers.drop_last();
        let m = makers.last();
        lemma_filter_subsequence(init, p);
        assert(makers =~= init.push(m));
        init.lemma_filter_push(m, p);
        let f = init.filter(p);
        let idx = choose|idx: Seq<int>|
            {
                &&& idx.len() == f.len()
                &&& forall|k: int| 0 <= k < idx.len() ==> 0 <= #[trigger] idx[k] < init.len()
                &&& forall|k: int, l: int| 0 <= k < l < idx.len() ==> idx[k] < idx[l]
                &&& forall|k: int| 0 <= k < idx.len() ==> f[k] == init[#[trigger] idx[k]]
            };
        if p(m) {
            let idx2 = idx.push(init.len() as int);
            let g = makers.filter(p);
            assert(g == f.push(m));
            assert forall|k: int| 0 <= k < idx2.len() implies g[k] == makers[#[trigger] idx2[k]] by {
                if k < idx.len() {
                    assert(idx2[k] == idx[k]);
                    assert(f[k] == init[idx[k]]);
                }
            }
            assert forall|k: int| 0 <= k < idx2.len() implies 0 <= #[trigger] idx2[k] < makers.len() by {
                if k < idx.len() {
                    assert(idx2[k] == idx[k]);
                }
            }
            assert forall|k: int, l: int| 0 <= k < l < idx2.len() implies idx2[k] < idx2[l] by {
                if l < idx.len() {
                    assert(idx2[k] == idx[k] && idx2[l] == idx[l]);
                } else {
                    assert(idx2[k] == idx[k]);
                    assert(0 <= idx[k] < init.len());
                }
            }
            assert(idx2.len() == g.len());
            assert(is_subsequence(g, makers));
        } else {
            let g = makers.filter(p);
            assert(g == f);
            assert forall|k: int| 0 <= k < idx.len() implies g[k] == makers[#[trigger] idx[k]] by {
                assert(f[k] == init[idx[k]]);
            }
            assert(idx.len() == g.len());
            assert(is_subsequence(g, makers));
        }
    }
}

/// The number of makers listed under the filter of state `s`.
pub open spec fn count_in_state(makers: Seq<ApiMaker>, s: ApiMakerState) -> nat {
    makers.filter(selects(Some(s))).len()
}

/// The lengths of the listings of each state in `states`, added up.
pub open spec fn listed_total(makers: Seq<ApiMaker>, states: Seq<ApiMakerState>) -> nat
    decreases states.len(),
{
    if states.len() == 0 {
        0
    } else {
        listed_total(makers, states.drop_last()) + count_in_state(makers, states.last())
    }
}

/// How often `s` occurs in `states`.
pub open spec fn occurrences(states: Seq<ApiMakerState>, s: ApiMakerState) -> nat
    decreases states.len(),
{
    if states.len() == 0 {
        0
    } else {
        occurrences(states.drop_last(), s) + if states.last() == s { 1nat } else { 0nat }
    }
}

proof fn lemma_listed_total_empty(makers: Seq<ApiMaker>, states: Seq<ApiMakerState>)
    requires
        makers.len() == 0,
    ensures
        listed_total(makers, states) == 0,
    decreases states.len(),
{
    if states.len() > 0 {
        lemma_listed_total_empty(makers, states.drop_last());
        makers.lemma_filter_len(selects(Some(states.last())));
    }
}

proof fn lemma_listed_total_push(makers: Seq<ApiMaker>, m: ApiMaker, states: Seq<ApiMakerState>)
    ensures
        listed_total(makers.push(m), states) == listed_total(makers, states) + occurrences(states, m.state),
    decreases states.len(),
{
    if states.len() > 0 {
        lemma_listed_total_push(makers, m, states.drop_last());
        makers.lemma_filter_push(m, selects(Some(states.last())));
    }
}

proof fn lemma_occurs_once(states: Seq<ApiMakerState>, s: ApiMakerState)
    requires
        states.no_duplicates(),
    ensures
        occurrences(states, s) == if states.contains(s) { 1nat } else { 0nat },
    decreases states.len(),
{
    if states.len() > 0 {
        let init = states.drop_last();
        assert(init.no_duplicates());
        lemma_occurs_once(init, s);
        if states.last() == s {
            if init.contains(s) {
                let j = choose|j: int| 0 <= j < init.len() && init[j] == s;
                assert(states[j] == states[states.len() - 1]);
            }
        } else {
            if states.contains(s) {
                let j = choose|j: int| 0 <= j < states.len() && states[j] == s;
                assert(init[j] == s);
            }
            if init.contains(s) {
                let j = choose|j: int| 0 <= j < init.len() && init[j] == s;
                assert(states[j] == s);
            }
        }
    }
}

/// The listings of the distinct states that makers of the store are in
/// partition the full listing: their lengths add up to the store's size.
pub proof fn lemma_listings_partition(makers: Seq<ApiMaker>, states: Seq<ApiMakerState>)
    requires
        states.no_duplicates(),
        forall|i: int| 0 <= i < makers.len() ==> states.contains(#[trigger] makers[i].state),
    ensures
        listed_total(makers, states) == makers.filter(selects(None)).len(),
    decreases makers.len(),
{
    lemma_unfiltered_lists_all(makers);
    if makers.len() == 0 {
        lemma_listed_total_empty(makers, states);
    } else {
        let init = makers.drop_last();
        assert forall|i: int| 0 <= i < init.len() implies states.contains(#[trigger] init[i].state) by {
            assert(init[i] == makers[i]);
        }
        lemma_listings_partition(init, states);
        lemma_unfiltered_lists_all(init);
        assert(makers =~= init.push(makers.last()));
        lemma_listed_total_push(init, makers.last(), states);
        assert(states.contains(makers[makers.len() - 1].state));
        lemma_occurs_once(states, makers.last().state);
    }
}

/// The offer count of an empty store is zero, and adding a maker raises it by
/// one exactly when that maker carries an offer.
pub proof fn lemma_offer_count_steps(makers: Seq<ApiMaker>, m: ApiMaker)
    ensures
        offer_count(Seq::<ApiMaker>::empty()) == 0,
        offer_count(makers.push(m)) == offer_count(makers) + if m.offer is Some { 1nat } else { 0nat },
{
    Seq::<ApiMaker>::empty().lemma_filter_len(has_offer());
    makers.lemma_filter_push(m, has_offer());
}

} // verus!
