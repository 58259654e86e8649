//! The order in which problems are reported: by their place in the document.

use crate::errors::Problem;
use vstd::prelude::*;

verus! {

/// The place by which a problem is ordered: whether it has a place in the
/// document at all, then the line and the column where that place begins.
pub open spec fn rank(p: Problem) -> (int, int, int) {
    match p.location.document_side() {
        None => (0, 0, 0),
        Some(span) => (1, span.start_line as int, span.start_column as int),
    }
}

/// `a` is reported before `b`, or the two share a place. A problem without a
/// place in the document comes before every problem that has one.
pub open spec fn not_after(a: Problem, b: Problem) -> bool {
    let x = rank(a);
    let y = rank(b);
    x.0 < y.0 || (x.0 == y.0 && (x.1 < y.1 || (x.1 == y.1 && x.2 <= y.2)))
}

/// No problem of the list comes before one that stands earlier in it.
pub open spec fn ordered(s: Seq<Problem>) -> bool {
    forall|i: int, j: int| 0 <= i < j < s.len() ==> not_after(s[i], s[j])
}

/// The ordered list `s` with `p` put behind the last problem that is not
/// after it.
pub open spec fn insert_by_position(s: Seq<Problem>, p: Problem) -> Seq<Problem>
    decreases s.len(),
{
    if s.len() == 0 {
        seq![p]
    } else if not_after(s.last(), p) {
        s.push(p)
    } else {
        insert_by_position(s.drop_last(), p).push(s.last())
    }
}

/// The problems of `s` by their place in the document. Problems that share a
/// place keep the order they had.
pub open spec fn sorted_by_position(s: Seq<Problem>) -> Seq<Problem>
    decreases s.len(),
{
    if s.len() == 0 {
        Seq::empty()
    } else {
        insert_by_position(sorted_by_position(s.drop_last()), s.last())
    }
}

/// Putting a problem into a list adds it and nothing else, and keeps an
/// ordered list ordered.
pub proof fn lemma_insert_by_position(s: Seq<Problem>, p: Problem)
    ensures
        insert_by_position(s, p).len() == s.len() + 1,
        insert_by_position(s, p).to_multiset() == s.to_multiset().insert(p),
        ordered(s) ==> ordered(insert_by_position(s, p)),
    decreases s.len(),
{
    broadcast use vstd::seq_lib::group_to_multiset_ensures;

    let r = insert_by_position(s, p);
    if s.len() == 0 {
        assert(s =~= Seq::empty());
        assert(r =~= Seq::<Problem>::empty().push(p));
    } else if not_after(s.last(), p) {
        if ordered(s) {
            assert forall|i: int, j: int| 0 <= i < j < r.len() implies not_after(r[i], r[j]) by {
                if j == s.len() && i < s.len() - 1 {
                    assert(not_after(s[i], s[s.len() - 1]));
                }
            }
        }
    } else {
        let head = s.drop_last();
        lemma_insert_by_position(head, p);
        let mid = insert_by_position(head, p);
        assert(s =~= head.push(s.last()));
        assert(s.to_multiset() =~= head.to_multiset().insert(s.last()));
        assert(r.to_multiset() =~= s.to_multiset().insert(p));
        if ordered(s) {
            assert(ordered(head)) by {
                assert forall|i: int, j: int| 0 <= i < j < head.len() implies not_after(
                    head[i],
                    head[j],
                ) by {
                    assert(not_after(s[i], s[j]));
                }
            }
            lemma_members(head, p);
            assert forall|i: int, j: int| 0 <= i < j < r.len() implies not_after(r[i], r[j]) by {
                if j == mid.len() {
                    if mid[i] == p {
                    } else {
                        let n = choose|n: int| 0 <= n < head.len() && head[n] == mid[i];
                        assert(not_after(s[n], s[s.len() - 1]));
                    }
                } else {
                    assert(not_after(mid[i], mid[j]));
                }
            }
        }
    }
}

/// Putting a problem into a list makes it one longer.
pub proof fn lemma_insert_len(s: Seq<Problem>, p: Problem)
    ensures
        insert_by_position(s, p).len() == s.len() + 1,
    decreases s.len(),
{
    if s.len() > 0 && !not_after(s.last(), p) {
        lemma_insert_len(s.drop_last(), p);
    }
}

/// Every problem of the list with `p` put in is `p` or a problem of the list.
pub proof fn lemma_members(s: Seq<Problem>, p: Problem)
    ensures
        forall|i: int|
            0 <= i < insert_by_position(s, p).len() ==> #[trigger] insert_by_position(s, p)[i] == p
                || exists|n: int| 0 <= n < s.len() && s[n] == insert_by_position(s, p)[i],
    decreases s.len(),
{
    let r = insert_by_position(s, p);
    lemma_insert_len(s, p);
    if s.len() == 0 {
    } else if not_after(s.last(), p) {
        assert forall|i: int| 0 <= i < r.len() implies #[trigger] r[i] == p || exists|n: int|
            0 <= n < s.len() && s[n] == r[i] by {
            if i < s.len() {
                assert(s[i] == r[i]);
            }
        }
    } else {
        let head = s.drop_last();
        lemma_members(head, p);
        lemma_insert_len(head, p);
        let mid = insert_by_position(head, p);
        assert forall|i: int| 0 <= i < r.len() implies #[trigger] r[i] == p || exists|n: int|
            0 <= n < s.len() && s[n] == r[i] by {
            if i < mid.len() {
                assert(r[i] == mid[i]);
                if mid[i] != p {
                    let n = choose|n: int| 0 <= n < head.len() && head[n] == mid[i];
                    assert(s[n] == r[i]);
                }
            } else {
                assert(s[s.len() - 1] == r[i]);
            }
        }
    }
}

/// The sorted list holds the same problems, each as often as before, and is
/// in order.
pub proof fn lemma_sorted_by_position(s: Seq<Problem>)
    ensures
        sorted_by_position(s).len() == s.len(),
        sorted_by_position(s).to_multiset() == s.to_multiset(),
        ordered(sorted_by_position(s)),
    decreases s.len(),
{
    broadcast use vstd::seq_lib::group_to_multiset_ensures;

    if s.len() == 0 {
        assert(s =~= Seq::empty());
    } else {
        let head = s.drop_last();
        lemma_sorted_by_position(head);
        lemma_insert_by_position(sorted_by_position(head), s.last());
        assert(s =~= head.push(s.last()));
        assert(s.to_multiset() =~= head.to_multiset().insert(s.last()));
    }
}

/// A list that is in order already is left as it is.
pub proof fn lemma_sorted_is_fixed(s: Seq<Problem>)
    requires
        ordered(s),
    ensures
        sorted_by_position(s) == s,
    decreases s.len(),
{
    if s.len() == 0 {
        assert(s =~= Seq::empty());
    } else {
        let head = s.drop_last();
        assert(ordered(head)) by {
            assert forall|i: int, j: int| 0 <= i < j < head.len() implies not_after(
                head[i],
                head[j],
            ) by {
                assert(not_after(s[i], s[j]));
            }
        }
        lemma_sorted_is_fixed(head);
        if head.len() > 0 {
            assert(not_after(s[head.len() - 1], s[s.len() - 1]));
        }
        assert(s =~= head.push(s.last()));
    }
}

/// Whether `a` is reported before `b` or shares its place.
pub fn comes_not_after(a: &Problem, b: &Problem) -> (r: bool)
    ensures
        r == not_after(*a, *b),
{
    match (a.location.document_span(), b.location.document_span()) {
        (None, _) => true,
        (Some(_), None) => false,
        (Some(x), Some(y)) => x.start_line < y.start_line || (x.start_line == y.start_line
            && x.start_column <= y.start_column),
    }
}

/// Orders problems by their place in the document.
pub fn sort_by_position(problems: Vec<Problem>) -> (r: Vec<Problem>)
    ensures
        r@ == sorted_by_position(problems@),
        r@.len() == problems@.len(),
        r@.to_multiset() == problems@.to_multiset(),
        ordered(r@),
{
    let mut out: Vec<Problem> = Vec::new();
    let mut n: usize = 0;
    while n < problems.len()
        invariant
            n <= problems.len(),
            out@ == sorted_by_position(problems@.subrange(0, n as int)),
            out@.len() == n,
        decreases problems.len() - n,
    {
        let p = problems[n];
        let mut at: usize = out.len();
        assert(out@.subrange(0, at as int) =~= out@);
        while at > 0 && !comes_not_after(&out[at - 1], &p)
            invariant
                at <= out.len(),
                insert_by_position(out@, p) == insert_by_position(out@.subrange(0, at as int), p)
                    + out@.subrange(at as int, out@.len() as int),
            decreases at,
        {
            proof {
                let head = out@.subrange(0, at as int);
                assert(head.drop_last() =~= out@.subrange(0, at - 1));
                assert(insert_by_position(head.drop_last(), p).push(head.last()) + out@.subrange(
                    at as int,
                    out@.len() as int,
                ) =~= insert_by_position(head.drop_last(), p) + out@.subrange(
                    at - 1,
                    out@.len() as int,
                ));
            }
            at = at - 1;
        }
        proof {
            let head = out@.subrange(0, at as int);
            assert(insert_by_position(head, p) =~= head.push(p));
            assert(head.push(p) + out@.subrange(at as int, out@.len() as int) =~= out@.insert(
                at as int,
                p,
            ));
            let upto = problems@.subrange(0, n + 1);
            assert(upto.drop_last() =~= problems@.subrange(0, n as int));
            lemma_insert_by_position(out@, p);
        }
        out.insert(at, p);
        n = n + 1;
    }
    proof {
        assert(problems@.subrange(0, n as int) =~= problems@);
        lemma_sorted_by_position(problems@);
    }
    out
}

} // verus!
