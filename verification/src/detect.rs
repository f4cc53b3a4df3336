use vstd::prelude::*;

use crate::page::Page;

verus! {

/// Whether some page of `s` has the identity `id`.
pub open spec fn has_id(s: Seq<Page>, id: Seq<char>) -> bool {
    exists|i: int| 0 <= i < s.len() && s[i].id@ == id
}

/// The pages of `cur` whose identity does not occur in `prev`, in the
/// order `cur` presents them. Pages that disappeared from `cur` are not
/// reported at all: removals are invisible to this design.
pub open spec fn new_pages(prev: Seq<Page>, cur: Seq<Page>) -> Seq<Page>
    decreases cur.len(),
{
    if cur.len() == 0 {
        Seq::empty()
    } else {
        let rest = new_pages(prev, cur.drop_last());
        if has_id(prev, cur.last().id@) {
            rest
        } else {
            rest.push(cur.last())
        }
    }
}

/// Whether `prev` holds a page with the same identity as `page`; only the
/// id takes part in the comparison.
pub fn contains_identity(prev: &Vec<Page>, page: &Page) -> (r: bool)
    ensures
        r == has_id(prev@, page.id@),
{
    let mut j: usize = 0;
    while j < prev.len()
        invariant
            j <= prev.len(),
            forall|k: int| 0 <= k < j ==> prev@[k].id@ != page.id@,
        decreases prev.len() - j,
    {
        if prev[j].id == page.id {
            proof {
                assert(prev@[j as int].id@ == page.id@);
            }
            return true;
        }
        j += 1;
    }
    false
}

/// The novelty detector: the pages of `cur` that are new with respect to
/// `prev`, in `cur`'s order. A page is new exactly when no page of `prev`
/// has its identity; a page present in `prev` but absent from `cur` is not
/// reported.
pub fn diff(prev: &Vec<Page>, cur: &Vec<Page>) -> (new_items: Vec<Page>)
    ensures
        new_items@ == new_pages(prev@, cur@),
{
    let mut out: Vec<Page> = Vec::new();
    let mut i: usize = 0;
    while i < cur.len()
        invariant
            i <= cur.len(),
            out@ == new_pages(prev@, cur@.take(i as int)),
        decreases cur.len() - i,
    {
        proof {
            assert(cur@.take(i as int + 1).drop_last() =~= cur@.take(i as int));
            assert(cur@.take(i as int + 1).last() == cur@[i as int]);
        }
        let page = &cur[i];
        if !contains_identity(prev, page) {
            out.push(page.clone());
        }
        i += 1;
    }
    proof {
        assert(cur@.take(cur@.len() as int) =~= cur@);
    }
    out
}

/// When `prev` and `cur` share no identities, every page of `cur` is new:
/// the detector reports exactly `cur`.
pub proof fn lemma_disjoint_all_new(prev: Seq<Page>, cur: Seq<Page>)
    requires
        forall|i: int| 0 <= i < cur.len() ==> !has_id(prev, #[trigger] cur[i].id@),
    ensures
        new_pages(prev, cur) == cur,
    decreases cur.len(),
{
    if cur.len() > 0 {
        assert forall|i: int| 0 <= i < cur.drop_last().len() implies !has_id(
            prev,
            #[trigger] cur.drop_last()[i].id@,
        ) by {
            assert(cur.drop_last()[i] == cur[i]);
        }
        lemma_disjoint_all_new(prev, cur.drop_last());
        assert(!has_id(prev, cur.last().id@)) by {
            assert(cur[cur.len() - 1] == cur.last());
        }
        assert(cur.drop_last().push(cur.last()) =~= cur);
    } else {
        assert(new_pages(prev, cur) =~= cur);
    }
}

/// When every identity of `cur` already occurs in `prev`, nothing is new:
/// the detector reports the empty sequence.
pub proof fn lemma_covered_none_new(prev: Seq<Page>, cur: Seq<Page>)
    requires
        forall|i: int| 0 <= i < cur.len() ==> has_id(prev, #[trigger] cur[i].id@),
    ensures
        new_pages(prev, cur) == Seq::<Page>::empty(),
    decreases cur.len(),
{
    if cur.len() > 0 {
        assert forall|i: int| 0 <= i < cur.drop_last().len() implies has_id(
            prev,
            #[trigger] cur.drop_last()[i].id@,
        ) by {
            assert(cur.drop_last()[i] == cur[i]);
        }
        lemma_covered_none_new(prev, cur.drop_last());
        assert(has_id(prev, cur.last().id@)) by {
            assert(cur[cur.len() - 1] == cur.last());
        }
    }
}

/// Idempotence: comparing a result set against itself reports nothing.
pub proof fn lemma_identical_none_new(s: Seq<Page>)
    ensures
        new_pages(s, s) == Seq::<Page>::empty(),
{
    assert forall|i: int| 0 <= i < s.len() implies has_id(s, #[trigger] s[i].id@) by {
        assert(0 <= i < s.len() && s[i].id@ == s[i].id@);
    }
    lemma_covered_none_new(s, s);
}

/// Order determinism: the detector's output, order included, is a function
/// of the two input sequences alone, so two calls on identical inputs
/// produce identical output orderings.
pub proof fn lemma_deterministic_order(
    prev: Seq<Page>,
    cur: Seq<Page>,
    first: Seq<Page>,
    second: Seq<Page>,
)
    requires
        first == new_pages(prev, cur),
        second == new_pages(prev, cur),
    ensures
        first == second,
{
}

} // verus!
