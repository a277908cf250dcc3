//! Sets of instance ids, kept as lists in the order in which the runtime
//! named them. An id is an opaque text; two ids are the same instance where
//! the texts are equal.

use vstd::prelude::*;

verus! {

/// The instances of `all` that are not among `old`, in the order of `all`.
pub open spec fn fresh_ids(all: Seq<Seq<char>>, old: Seq<Seq<char>>) -> Seq<Seq<char>> {
    all.filter(|id: Seq<char>| !old.contains(id))
}

/// Whether `id` is among `ids`.
pub fn contains_id(ids: &Vec<String>, id: &String) -> (found: bool)
    ensures
        found == ids.deep_view().contains(id@),
{
    let mut k: usize = 0;
    while k < ids.len()
        invariant
            k <= ids.len(),
            forall|j: int| 0 <= j < k ==> ids.deep_view()[j] != id@,
        decreases ids.len() - k,
    {
        if ids[k] == *id {
            assert(ids.deep_view()[k as int] == id@);
            return true;
        }
        k += 1;
    }
    false
}

/// The instances of `all` that are not among `old`, in the order of `all`.
pub fn without(all: &Vec<String>, old: &Vec<String>) -> (out: Vec<String>)
    ensures
        out.deep_view() == fresh_ids(all.deep_view(), old.deep_view()),
{
    let ghost keep = |id: Seq<char>| !old.deep_view().contains(id);
    let mut out: Vec<String> = Vec::new();
    let mut k: usize = 0;
    proof {
        reveal(Seq::filter);
        assert(all.deep_view().take(0) =~= Seq::<Seq<char>>::empty());
        assert(out.deep_view() =~= all.deep_view().take(0).filter(keep));
    }
    while k < all.len()
        invariant
            k <= all.len(),
            keep == |id: Seq<char>| !old.deep_view().contains(id),
            out.deep_view() == all.deep_view().take(k as int).filter(keep),
        decreases all.len() - k,
    {
        let ghost before = out.deep_view();
        proof {
            all.deep_view().take(k as int).lemma_filter_push(all.deep_view()[k as int], keep);
            assert(all.deep_view().take(k as int).push(all.deep_view()[k as int])
                =~= all.deep_view().take(k + 1));
        }
        if !contains_id(old, &all[k]) {
            out.push(all[k].clone());
            assert(out.deep_view() =~= before.push(all.deep_view()[k as int]));
        }
        k += 1;
    }
    assert(all.deep_view().take(all.len() as int) =~= all.deep_view());
    out
}

/// An instance is fresh exactly if it is one of `all` and none of `old`.
pub proof fn lemma_fresh_contains(all: Seq<Seq<char>>, old: Seq<Seq<char>>, id: Seq<char>)
    ensures
        fresh_ids(all, old).contains(id) <==> all.contains(id) && !old.contains(id),
    decreases all.len(),
{
    let keep = |id: Seq<char>| !old.contains(id);
    reveal(Seq::filter);
    if all.len() > 0 {
        let front = all.drop_last();
        lemma_fresh_contains(front, old, id);
        front.lemma_filter_push(all.last(), keep);
        assert(front.push(all.last()) =~= all);
        if all.contains(id) {
            let i = choose|i: int| 0 <= i < all.len() && all[i] == id;
            if i < front.len() {
                assert(front[i] == id);
            }
        }
        if front.contains(id) {
            let i = choose|i: int| 0 <= i < front.len() && front[i] == id;
            assert(all[i] == id);
        }
        let kept = front.filter(keep);
        if keep(all.last()) {
            let grown = kept.push(all.last());
            if grown.contains(id) {
                let i = choose|i: int| 0 <= i < grown.len() && grown[i] == id;
                if i < kept.len() {
                    assert(kept[i] == id);
                } else {
                    assert(all[all.len() - 1] == id);
                }
            }
            if kept.contains(id) {
                let i = choose|i: int| 0 <= i < kept.len() && kept[i] == id;
                assert(grown[i] == id);
            }
            if id == all.last() {
                assert(grown[grown.len() - 1] == id);
                assert(all[all.len() - 1] == id);
            }
        }
    } else {
        assert(fresh_ids(all, old) =~= Seq::<Seq<char>>::empty());
    }
}

/// The fresh instances are disjoint from the old ones, and as a set they are
/// all instances less the old ones.
pub proof fn law_fresh_is_difference(all: Seq<Seq<char>>, old: Seq<Seq<char>>)
    ensures
        forall|id: Seq<char>| fresh_ids(all, old).contains(id) ==> !old.contains(id),
        fresh_ids(all, old).to_set() == all.to_set().difference(old.to_set()),
{
    assert forall|id: Seq<char>| fresh_ids(all, old).contains(id) implies !old.contains(id) by {
        lemma_fresh_contains(all, old, id);
    }
    assert forall|id: Seq<char>|
        fresh_ids(all, old).to_set().contains(id) <==> all.to_set().difference(
            old.to_set(),
        ).contains(id) by {
        lemma_fresh_contains(all, old, id);
    }
    assert(fresh_ids(all, old).to_set() =~= all.to_set().difference(old.to_set()));
}

} // verus!
