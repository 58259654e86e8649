//! The documents that a prescription describes when every Optional is taken
//! the same way and every Repeatable the same number of times, and the law
//! that each of them conforms.

use crate::authoring::{directive_free, directive_free_among};
use crate::directive::{directive_of, DirectiveKind};
use crate::errors::Problem;
use crate::matching::{
    align, extras, findings, node_matches, node_problems, reach, run_length, settle,
};
use crate::node::{Span, Tree};
use vstd::prelude::*;

verus! {

/// `d` is what the Verbatim node `p` asks for: the same kind, the same text
/// for a leaf, and for a container children that render those of `p`. The
/// places of the two nodes play no part.
pub open spec fn renders_node(p: Tree, d: Tree, present: bool, times: nat) -> bool
    decreases p, 0int, 0int,
{
    directive_of(p) is Verbatim && p.kind == d.kind && if p.kind.is_leaf() {
        p.text == d.text
    } else {
        renders(p.children, 0, d.children, 0, present, times)
    }
}

/// The `n` nodes of `ds` from `j` on each render `t`.
pub open spec fn renders_run(
    t: Tree,
    ds: Seq<Tree>,
    j: int,
    n: nat,
    present: bool,
    times: nat,
) -> bool
    decreases t, 1 + n, 0int,
{
    n == 0 || (0 <= j < ds.len() && renders_node(t, ds[j], present, times) && renders_run(
        t,
        ds,
        j + 1,
        (n - 1) as nat,
        present,
        times,
    ))
}

/// The nodes of `ds` from `j` on are what the nodes of `ps` from `i` on ask
/// for, one after the other: a Verbatim node is rendered by one node, an
/// Ignore by none, an Optional by its subtree if `present` and by nothing if
/// not, a Repeatable by its subtree `times` times.
pub open spec fn renders(
    ps: Seq<Tree>,
    i: int,
    ds: Seq<Tree>,
    j: int,
    present: bool,
    times: nat,
) -> bool
    decreases ps, 2 * (ps.len() - i), 0int,
{
    if i < 0 || j < 0 || j > ds.len() {
        false
    } else if i >= ps.len() {
        j == ds.len()
    } else {
        let p = ps[i];
        match directive_of(p) {
            DirectiveKind::Verbatim => j < ds.len() && renders_node(p, ds[j], present, times)
                && renders(ps, i + 1, ds, j + 1, present, times),
            DirectiveKind::Ignore => renders(ps, i + 1, ds, j, present, times),
            DirectiveKind::Optional => p.children.len() > 0 && if present {
                renders_run(p.children[0], ds, j, 1, present, times) && renders(
                    ps,
                    i + 1,
                    ds,
                    j + 1,
                    present,
                    times,
                )
            } else {
                renders(ps, i + 1, ds, j, present, times)
            },
            DirectiveKind::Repeatable => p.children.len() > 0 && renders_run(
                p.children[0],
                ds,
                j,
                times,
                present,
                times,
            ) && renders(ps, i + 1, ds, j + times, present, times),
            _ => false,
        }
    }
}

/// The two trees are the same but for the places of their nodes.
pub open spec fn same_skeleton(p: Tree, d: Tree) -> bool
    decreases p, 0int,
{
    p.kind == d.kind && p.text == d.text && p.children.len() == d.children.len()
        && same_skeleton_among(p.children, d.children, 0)
}

/// From `i` on, the trees of `ps` and `ds` are the same, pair by pair, but
/// for the places of their nodes.
pub open spec fn same_skeleton_among(ps: Seq<Tree>, ds: Seq<Tree>, i: int) -> bool
    decreases ps, ps.len() - i,
{
    if i < 0 || i >= ps.len() || i >= ds.len() {
        true
    } else {
        same_skeleton(ps[i], ds[i]) && same_skeleton_among(ps, ds, i + 1)
    }
}

/// Where the search for a count starts at or above a count that leaves no
/// problem, it ends without one.
pub proof fn lemma_settle_finds(
    ps: Seq<Tree>,
    i: int,
    ds: Seq<Tree>,
    j: int,
    k: int,
    most: int,
    parent: Span,
    good: int,
)
    requires
        0 <= i < ps.len(),
        0 <= good <= k,
        align(ps, i + 1, ds, j + good, parent).len() == 0,
    ensures
        settle(ps, i, ds, j, k, most, parent) == Seq::<Problem>::empty(),
    decreases k,
{
    if align(ps, i + 1, ds, j + k, parent).len() == 0 {
    } else {
        lemma_settle_finds(ps, i, ds, j, k - 1, most, parent, good);
    }
}

/// A node that renders a Verbatim node gives no problem.
pub proof fn lemma_rendering_node(p: Tree, d: Tree, present: bool, times: nat)
    requires
        renders_node(p, d, present, times),
    ensures
        node_problems(p, d) == Seq::<Problem>::empty(),
        node_matches(p, d),
    decreases p, 0int, 0int,
{
    if !p.kind.is_leaf() {
        lemma_rendering(p.children, 0, d.children, 0, d.span, present, times);
    }
}

/// Nodes that render `t` one after the other are counted as a run of it.
pub proof fn lemma_rendering_run(
    t: Tree,
    ds: Seq<Tree>,
    j: int,
    n: nat,
    cap: int,
    present: bool,
    times: nat,
)
    requires
        renders_run(t, ds, j, n, present, times),
        n <= cap,
    ensures
        run_length(t, ds, j, cap) >= n,
        n > 0 ==> j + n <= ds.len(),
    decreases t, 1 + n, 0int,
{
    if n > 0 {
        lemma_rendering_node(t, ds[j], present, times);
        lemma_rendering_run(t, ds, j + 1, (n - 1) as nat, cap - 1, present, times);
    } else {
        lemma_run_length_bounds(t, ds, j, cap);
    }
}

/// Nodes that render `t` one after the other are nodes of the document.
pub proof fn lemma_rendering_run_fits(
    t: Tree,
    ds: Seq<Tree>,
    j: int,
    n: nat,
    present: bool,
    times: nat,
)
    requires
        renders_run(t, ds, j, n, present, times),
        0 <= j <= ds.len(),
    ensures
        j + n <= ds.len(),
    decreases n,
{
    if n > 0 {
        lemma_rendering_run_fits(t, ds, j + 1, (n - 1) as nat, present, times);
    }
}

/// Siblings that render the siblings of a prescription align with them
/// without a problem.
pub proof fn lemma_rendering(
    ps: Seq<Tree>,
    i: int,
    ds: Seq<Tree>,
    j: int,
    parent: Span,
    present: bool,
    times: nat,
)
    requires
        renders(ps, i, ds, j, present, times),
    ensures
        align(ps, i, ds, j, parent) == Seq::<Problem>::empty(),
    decreases ps, 2 * (ps.len() - i), 0int,
{
    if i >= ps.len() {
        assert(extras(ds, j) =~= Seq::<Problem>::empty());
    } else {
        let p = ps[i];
        match directive_of(p) {
            DirectiveKind::Verbatim => {
                lemma_rendering_node(p, ds[j], present, times);
                lemma_rendering(ps, i + 1, ds, j + 1, parent, present, times);
                assert(node_problems(p, ds[j]) + align(ps, i + 1, ds, j + 1, parent)
                    =~= Seq::<Problem>::empty());
            },
            DirectiveKind::Ignore => {
                lemma_rendering(ps, i + 1, ds, j, parent, present, times);
            },
            DirectiveKind::Optional => {
                let most = reach(p, ds, j);
                if present {
                    lemma_rendering_run(p.children[0], ds, j, 1, 1, present, times);
                    lemma_rendering(ps, i + 1, ds, j + 1, parent, present, times);
                    lemma_settle_finds(ps, i, ds, j, most, most, parent, 1);
                } else {
                    lemma_run_length_bounds(p.children[0], ds, j, 1);
                    lemma_rendering(ps, i + 1, ds, j, parent, present, times);
                    lemma_settle_finds(ps, i, ds, j, most, most, parent, 0);
                }
            },
            DirectiveKind::Repeatable => {
                let most = reach(p, ds, j);
                lemma_rendering_run_fits(p.children[0], ds, j, times, present, times);
                lemma_rendering_run(p.children[0], ds, j, times, ds.len() - j, present, times);
                lemma_rendering(ps, i + 1, ds, j + times, parent, present, times);
                lemma_settle_finds(ps, i, ds, j, most, most, parent, times as int);
            },
            _ => {},
        }
    }
}

/// A run is never longer than its cap, nor than what is left of the
/// document, and never negative.
pub proof fn lemma_run_length_bounds(t: Tree, ds: Seq<Tree>, j: int, cap: int)
    ensures
        0 <= run_length(t, ds, j, cap),
        run_length(t, ds, j, cap) <= cap || cap < 0,
        0 <= j <= ds.len() ==> j + run_length(t, ds, j, cap) <= ds.len(),
    decreases cap,
{
    if cap <= 0 || j < 0 || j >= ds.len() || !node_matches(t, ds[j]) {
    } else {
        lemma_run_length_bounds(t, ds, j + 1, cap - 1);
    }
}

/// A tree renders every tree without directives that it shares its skeleton
/// with.
pub proof fn lemma_identical_renders(p: Tree, d: Tree, present: bool, times: nat)
    requires
        directive_free(p),
        same_skeleton(p, d),
    ensures
        renders_node(p, d, present, times),
    decreases p, 0int,
{
    lemma_identical_render_among(p.children, d.children, 0, present, times);
}

pub proof fn lemma_identical_render_among(
    ps: Seq<Tree>,
    ds: Seq<Tree>,
    i: int,
    present: bool,
    times: nat,
)
    requires
        ps.len() == ds.len(),
        0 <= i <= ps.len(),
        directive_free_among(ps, i),
        same_skeleton_among(ps, ds, i),
    ensures
        renders(ps, i, ds, i, present, times),
    decreases ps, ps.len() - i,
{
    if i < ps.len() {
        lemma_identical_renders(ps[i], ds[i], present, times);
        lemma_identical_render_among(ps, ds, i + 1, present, times);
    }
}

/// A document that differs from a prescription without directives in the
/// places of its nodes only is reported without a problem.
pub proof fn law_identical_document_conforms(p: Tree, d: Tree)
    requires
        directive_free(p),
        same_skeleton(p, d),
    ensures
        findings(p, d) == Seq::<Problem>::empty(),
{
    lemma_identical_renders(p, d, true, 1);
    lemma_rendering_node(p, d, true, 1);
}

/// Where a prescription holds an Optional subtree, the document with the
/// subtree and the document without it are both reported without a problem.
pub proof fn law_optional_present_or_absent(p: Tree, with: Tree, without: Tree, times: nat)
    requires
        renders_node(p, with, true, times),
        renders_node(p, without, false, times),
    ensures
        findings(p, with) == Seq::<Problem>::empty(),
        findings(p, without) == Seq::<Problem>::empty(),
{
    lemma_rendering_node(p, with, true, times);
    lemma_rendering_node(p, without, false, times);
}

/// Where a prescription holds a Repeatable subtree, the documents with no
/// repetition of it, with one and with any larger number are all reported
/// without a problem.
pub proof fn law_repetitions_conform(p: Tree, none: Tree, one: Tree, many: Tree, times: nat)
    requires
        renders_node(p, none, true, 0),
        renders_node(p, one, true, 1),
        renders_node(p, many, true, times),
    ensures
        findings(p, none) == Seq::<Problem>::empty(),
        findings(p, one) == Seq::<Problem>::empty(),
        findings(p, many) == Seq::<Problem>::empty(),
{
    lemma_rendering_node(p, none, true, 0);
    lemma_rendering_node(p, one, true, 1);
    lemma_rendering_node(p, many, true, times);
}

/// Where no count down from `k` leaves the rest without a problem, the
/// search ends with the problems of the first choice.
pub proof fn lemma_settle_keeps_first(
    ps: Seq<Tree>,
    i: int,
    ds: Seq<Tree>,
    j: int,
    k: int,
    most: int,
    parent: Span,
)
    requires
        0 <= i < ps.len(),
        0 <= k,
        forall|m: int| j <= m <= j + k ==> (#[trigger] align(ps, i + 1, ds, m, parent)).len() > 0,
    ensures
        settle(ps, i, ds, j, k, most, parent) == align(ps, i + 1, ds, j + most, parent),
    decreases k,
{
    assert(align(ps, i + 1, ds, j + k, parent).len() > 0);
    if k > 0 {
        lemma_settle_keeps_first(ps, i, ds, j, k - 1, most, parent);
    }
}

/// Where no number of nodes that an Optional or a Repeatable may take leaves
/// the rest without a problem, the problems reported are those of its first
/// choice: the largest number.
pub proof fn law_first_choice_reported(
    ps: Seq<Tree>,
    i: int,
    ds: Seq<Tree>,
    j: int,
    parent: Span,
)
    requires
        0 <= i < ps.len(),
        0 <= j <= ds.len(),
        directive_of(ps[i]).wraps(),
        forall|m: int|
            j <= m <= j + reach(ps[i], ds, j) ==> (#[trigger] align(ps, i + 1, ds, m, parent)).len()
                > 0,
    ensures
        align(ps, i, ds, j, parent) == align(ps, i + 1, ds, j + reach(ps[i], ds, j), parent),
{
    let most = reach(ps[i], ds, j);
    if ps[i].children.len() > 0 {
        lemma_run_length_bounds(ps[i].children[0], ds, j, 1);
        lemma_run_length_bounds(ps[i].children[0], ds, j, ds.len() - j);
    }
    lemma_settle_keeps_first(ps, i, ds, j, most, most, parent);
    assert(align(ps, i, ds, j, parent) == settle(ps, i, ds, j, most, most, parent));
}

/// Where a Repeatable stands last among its siblings and the document goes
/// on after the nodes that repeat its subtree, every node from the first one
/// that does not repeat it is reported as extra content, and the first
/// problem is at that node.
pub proof fn law_broken_repetition(ps: Seq<Tree>, ds: Seq<Tree>, j: int, parent: Span)
    requires
        ps.len() > 0,
        directive_of(ps.last()) is Repeatable,
        0 <= j <= ds.len(),
        j + reach(ps.last(), ds, j) < ds.len(),
    ensures
        0 <= reach(ps.last(), ds, j),
        align(ps, ps.len() - 1, ds, j, parent) == extras(ds, j + reach(ps.last(), ds, j)),
        align(ps, ps.len() - 1, ds, j, parent).len() > 0,
        align(ps, ps.len() - 1, ds, j, parent)[0] == Problem::extra_at(
            ds[j + reach(ps.last(), ds, j)].span,
        ),
{
    let i = ps.len() - 1;
    let most = reach(ps[i], ds, j);
    if ps[i].children.len() > 0 {
        lemma_run_length_bounds(ps[i].children[0], ds, j, ds.len() - j);
    }
    assert forall|m: int| j <= m <= j + most implies (#[trigger] align(
        ps,
        i + 1,
        ds,
        m,
        parent,
    )).len() > 0 by {
        assert(align(ps, i + 1, ds, m, parent) == extras(ds, m));
    }
    law_first_choice_reported(ps, i, ds, j, parent);
}

/// A document that renders a prescription, whichever way its Optionals are
/// taken and however often its Repeatables, is reported without a problem.
pub proof fn law_rendering_conforms(p: Tree, d: Tree, present: bool, times: nat)
    requires
        renders_node(p, d, present, times),
    ensures
        findings(p, d) == Seq::<Problem>::empty(),
{
    lemma_rendering_node(p, d, present, times);
}

} // verus!
