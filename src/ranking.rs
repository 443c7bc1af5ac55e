use vstd::prelude::*;

use crate::models::CrateInfo;

verus! {

broadcast use {Seq::filter_distributes_over_add, Seq::lemma_filter_push};

/// Where an item with score `v` goes in a list: after every leading item whose
/// score is at least `v`.
pub open spec fn insert_pos(s: Seq<CrateInfo>, v: u64) -> nat
    decreases s.len(),
{
    if s.len() == 0 || s[0].score < v {
        0
    } else {
        1 + insert_pos(s.drop_first(), v)
    }
}

pub open spec fn insert_desc(s: Seq<CrateInfo>, x: CrateInfo) -> Seq<CrateInfo> {
    s.insert(insert_pos(s, x.score) as int, x)
}

/// The items ordered by descending score, items of equal score in their
/// input order: each item in turn is placed after all items placed before
/// it whose score is at least its own.
pub open spec fn sort_desc(s: Seq<CrateInfo>) -> Seq<CrateInfo>
    decreases s.len(),
{
    if s.len() == 0 {
        s
    } else {
        insert_desc(sort_desc(s.drop_last()), s.last())
    }
}

pub open spec fn non_increasing(s: Seq<CrateInfo>) -> bool {
    forall|i: int, j: int| 0 <= i < j < s.len() ==> s[i].score >= s[j].score
}

pub open spec fn score_is(v: u64) -> spec_fn(CrateInfo) -> bool {
    |c: CrateInfo| c.score == v
}

proof fn lemma_insert_pos_props(s: Seq<CrateInfo>, v: u64)
    ensures
        insert_pos(s, v) <= s.len(),
        forall|k: int| 0 <= k < insert_pos(s, v) ==> s[k].score >= v,
        insert_pos(s, v) < s.len() ==> s[insert_pos(s, v) as int].score < v,
    decreases s.len(),
{
    if s.len() > 0 && s[0].score >= v {
        lemma_insert_pos_props(s.drop_first(), v);
        assert forall|k: int| 0 <= k < insert_pos(s, v) implies s[k].score >= v by {
            if k > 0 {
                assert(s[k] == s.drop_first()[k - 1]);
            }
        }
    }
}

proof fn lemma_insert_pos_unique(s: Seq<CrateInfo>, v: u64, p: int)
    requires
        0 <= p <= s.len(),
        forall|k: int| 0 <= k < p ==> s[k].score >= v,
        p == s.len() || s[p].score < v,
    ensures
        insert_pos(s, v) == p,
    decreases s.len(),
{
    if p > 0 {
        let t = s.drop_first();
        assert forall|k: int| 0 <= k < p - 1 implies t[k].score >= v by {
            assert(t[k] == s[k + 1]);
        }
        if p < s.len() {
            assert(t[p - 1] == s[p]);
        }
        lemma_insert_pos_unique(t, v, p - 1);
    }
}

proof fn lemma_insert_desc_sorted(s: Seq<CrateInfo>, x: CrateInfo)
    requires
        non_increasing(s),
    ensures
        non_increasing(insert_desc(s, x)),
        insert_desc(s, x).len() == s.len() + 1,
{
    lemma_insert_pos_props(s, x.score);
}

proof fn lemma_insert_desc_filter(s: Seq<CrateInfo>, x: CrateInfo, v: u64)
    requires
        non_increasing(s),
    ensures
        insert_desc(s, x).filter(score_is(v)) == s.push(x).filter(score_is(v)),
{
    lemma_insert_pos_props(s, x.score);
    let p = insert_pos(s, x.score) as int;
    let a = s.subrange(0, p);
    let b = s.subrange(p, s.len() as int);
    let f = score_is(v);
    assert(insert_desc(s, x) =~= a + seq![x] + b);
    assert(s =~= a + b);
    assert(s.push(x).filter(f) == s.filter(f).push(x) || !f(x));
    if f(x) {
        assert forall|k: int| 0 <= k < b.len() implies !f(b[k]) by {
            assert(b[k] == s[p + k]);
        }
        assert(b.filter(f) =~= Seq::<CrateInfo>::empty()) by {
            b.lemma_all_neg_filter_empty(f);
        }
        assert(seq![x].filter(f) =~= seq![x]) by {
            assert(seq![x] =~= Seq::<CrateInfo>::empty().push(x));
        }
        assert((a + seq![x] + b).filter(f) =~= a.filter(f) + seq![x]);
        assert(s.filter(f) =~= a.filter(f));
    } else {
        assert(seq![x].filter(f) =~= Seq::<CrateInfo>::empty()) by {
            assert(seq![x] =~= Seq::<CrateInfo>::empty().push(x));
        }
        assert((a + seq![x] + b).filter(f) =~= a.filter(f) + b.filter(f));
    }
}

/// The ranked order is non-increasing in score.
pub proof fn lemma_sort_desc_non_increasing(s: Seq<CrateInfo>)
    ensures
        non_increasing(sort_desc(s)),
        sort_desc(s).len() == s.len(),
    decreases s.len(),
{
    if s.len() > 0 {
        lemma_sort_desc_non_increasing(s.drop_last());
        lemma_insert_desc_sorted(sort_desc(s.drop_last()), s.last());
    }
}

/// Ranking is stable: for every score, the items of that score keep their
/// relative order they had, and none is added or lost.
pub proof fn lemma_sort_desc_stable(s: Seq<CrateInfo>, v: u64)
    ensures
        sort_desc(s).filter(score_is(v)) == s.filter(score_is(v)),
    decreases s.len(),
{
    if s.len() > 0 {
        let t = s.drop_last();
        lemma_sort_desc_stable(t, v);
        lemma_sort_desc_non_increasing(t);
        lemma_insert_desc_filter(sort_desc(t), s.last(), v);
        assert(s =~= t.push(s.last()));
    }
}

/// Every item of the ranked order is one of the input items.
pub proof fn lemma_sort_desc_members(s: Seq<CrateInfo>, k: int)
    requires
        0 <= k < sort_desc(s).len(),
    ensures
        s.contains(sort_desc(s)[k]),
{
    let y = sort_desc(s)[k];
    let f = score_is(y.score);
    lemma_sort_desc_stable(s, y.score);
    sort_desc(s).lemma_filter_contains(f, k);
    s.lemma_filter_contains_rev(f, y);
}

/// Orders the candidates by descending score; candidates of equal score keep
/// their relative order.
pub fn sort_by_score_desc(items: Vec<CrateInfo>) -> (r: Vec<CrateInfo>)
    ensures
        r@ == sort_desc(items@),
        non_increasing(r@),
{
    let ghost orig = items@;
    let mut rest = items;
    let mut out: Vec<CrateInfo> = Vec::new();
    let n = rest.len();
    let mut i: usize = 0;
    while rest.len() > 0
        invariant
            n == orig.len(),
            i + rest@.len() == orig.len(),
            rest@ == orig.subrange(i as int, orig.len() as int),
            out@ == sort_desc(orig.subrange(0, i as int)),
        decreases rest@.len(),
    {
        let x = rest.remove(0);
        let mut p: usize = 0;
        while p < out.len() && out[p].score >= x.score
            invariant
                p <= out@.len(),
                forall|k: int| 0 <= k < p ==> out@[k].score >= x.score,
            decreases out@.len() - p,
        {
            p = p + 1;
        }
        proof {
            lemma_insert_pos_unique(out@, x.score, p as int);
            let pre = orig.subrange(0, i + 1);
            assert(pre.drop_last() =~= orig.subrange(0, i as int));
            assert(pre.last() == x);
        }
        out.insert(p, x);
        i = i + 1;
        proof {
            assert(rest@ =~= orig.subrange(i as int, orig.len() as int));
        }
    }
    proof {
        assert(orig.subrange(0, i as int) =~= orig);
        lemma_sort_desc_non_increasing(orig);
    }
    out
}

} // verus!
