//! What it means for a document to conform to a prescription, said without
//! the search and without the problems, and the law that validation reports
//! nothing exactly for the documents that conform.

use crate::directive::{directive_of, DirectiveKind};
use crate::matching::{align, divergences, findings, node_matches, reach, run_length, settle};
use crate::node::{Span, Tree};
use crate::order::lemma_sorted_by_position;
use crate::rendering::{lemma_run_length_bounds, lemma_settle_finds};
use vstd::prelude::*;

verus! {

/// The node `d` is one that the node `p` accepts in its place: for a
/// Verbatim node the same kind with the same text or with conforming
/// children, for a Placeholder any node of its category, for a Substitution
/// a leaf of its kind with text that is neither empty nor the token itself.
/// No single node stands for an Ignore, an Optional or a Repeatable.
pub open spec fn conforms_node(p: Tree, d: Tree) -> bool
    decreases p, 0int, 0int,
{
    match directive_of(p) {
        DirectiveKind::Verbatim => p.kind == d.kind && if p.kind.is_leaf() {
            p.text == d.text
        } else {
            conforms(p.children, 0, d.children, 0)
        },
        DirectiveKind::Placeholder => p.kind.category() == d.kind.category(),
        DirectiveKind::Substitution => p.kind == d.kind && d.children.len() == 0 && d.text.len() > 0
            && d.text != p.text,
        _ => false,
    }
}

/// Each of the `n` nodes of `ds` from `j` on conforms to `t`.
pub open spec fn repeats(t: Tree, ds: Seq<Tree>, j: int, n: int) -> bool
    decreases t, 1 + n, 0int,
{
    n <= 0 || (0 <= j < ds.len() && conforms_node(t, ds[j]) && repeats(t, ds, j + 1, n - 1))
}

/// The nodes of `ds` from `j` on can be dealt out to the nodes of `ps` from
/// `i` on, in order and with none left over: one to each node that takes
/// one, none to an Ignore, one or none to an Optional, any number to a
/// Repeatable.
pub open spec fn conforms(ps: Seq<Tree>, i: int, ds: Seq<Tree>, j: int) -> bool
    decreases ps, 2 * (ps.len() - i), 0int,
{
    if i < 0 || j < 0 || j > ds.len() {
        false
    } else if i >= ps.len() {
        j == ds.len()
    } else {
        match directive_of(ps[i]) {
            DirectiveKind::Ignore => conforms(ps, i + 1, ds, j),
            DirectiveKind::Optional => fits(ps, i, ds, j, 1),
            DirectiveKind::Repeatable => fits(ps, i, ds, j, ds.len() - j),
            _ => j < ds.len() && conforms_node(ps[i], ds[j]) && conforms(ps, i + 1, ds, j + 1),
        }
    }
}

/// For some number from zero to `k`, that many nodes of `ds` from `j` on
/// conform to the subtree that `ps[i]` wraps, and what follows them conforms
/// to what follows `ps[i]`.
pub open spec fn fits(ps: Seq<Tree>, i: int, ds: Seq<Tree>, j: int, k: int) -> bool
    decreases ps, 2 * (ps.len() - i) - 1, k,
{
    if i < 0 || i >= ps.len() || k < 0 {
        false
    } else {
        (conforms(ps, i + 1, ds, j + k) && (k == 0 || (ps[i].children.len() > 0 && repeats(
            ps[i].children[0],
            ds,
            j,
            k,
        )))) || (k > 0 && fits(ps, i, ds, j, k - 1))
    }
}

/// Picks a number that shows `fits`.
pub proof fn lemma_fits_witness(ps: Seq<Tree>, i: int, ds: Seq<Tree>, j: int, k: int) -> (n: int)
    requires
        fits(ps, i, ds, j, k),
    ensures
        0 <= n <= k,
        conforms(ps, i + 1, ds, j + n),
        n == 0 || (ps[i].children.len() > 0 && repeats(ps[i].children[0], ds, j, n)),
    decreases k,
{
    if conforms(ps, i + 1, ds, j + k) && (k == 0 || (ps[i].children.len() > 0 && repeats(
        ps[i].children[0],
        ds,
        j,
        k,
    ))) {
        k
    } else {
        lemma_fits_witness(ps, i, ds, j, k - 1)
    }
}

/// A number that shows `fits` for itself shows it for every larger bound.
pub proof fn lemma_fits_from(ps: Seq<Tree>, i: int, ds: Seq<Tree>, j: int, k: int, n: int)
    requires
        0 <= i < ps.len(),
        0 <= n <= k,
        conforms(ps, i + 1, ds, j + n),
        n == 0 || (ps[i].children.len() > 0 && repeats(ps[i].children[0], ds, j, n)),
    ensures
        fits(ps, i, ds, j, k),
    decreases k,
{
    if k > n {
        lemma_fits_from(ps, i, ds, j, k - 1, n);
    }
}

/// Picks a count at which the search found the rest without a problem.
pub proof fn lemma_settle_witness(
    ps: Seq<Tree>,
    i: int,
    ds: Seq<Tree>,
    j: int,
    k: int,
    most: int,
    parent: Span,
) -> (n: int)
    requires
        0 <= i < ps.len(),
        0 <= k <= most,
        settle(ps, i, ds, j, k, most, parent).len() == 0,
    ensures
        0 <= n <= most,
        align(ps, i + 1, ds, j + n, parent).len() == 0,
    decreases k,
{
    if align(ps, i + 1, ds, j + k, parent).len() == 0 {
        k
    } else if k == 0 {
        most
    } else {
        lemma_settle_witness(ps, i, ds, j, k - 1, most, parent)
    }
}

/// A node conforms exactly when it takes the place without a problem.
pub proof fn lemma_conforms_node(p: Tree, d: Tree)
    ensures
        conforms_node(p, d) <==> node_matches(p, d),
    decreases p, 0int, 0int,
{
    if directive_of(p) is Verbatim && p.kind == d.kind && !p.kind.is_leaf() {
        lemma_conforms(p.children, 0, d.children, 0, d.span);
    }
}

/// Nodes that conform to `t` one after the other are counted as a run of
/// it.
pub proof fn lemma_repeats_within_run(t: Tree, ds: Seq<Tree>, j: int, n: int, cap: int)
    requires
        repeats(t, ds, j, n),
        0 <= n <= cap,
    ensures
        n <= run_length(t, ds, j, cap),
    decreases t, 1 + n, 0int,
{
    if n > 0 {
        lemma_conforms_node(t, ds[j]);
        lemma_repeats_within_run(t, ds, j + 1, n - 1, cap - 1);
    } else {
        lemma_run_length_bounds(t, ds, j, cap);
    }
}

/// The nodes of a run of `t` conform to it, one after the other.
pub proof fn lemma_run_repeats(t: Tree, ds: Seq<Tree>, j: int, n: int, cap: int)
    requires
        0 <= n <= run_length(t, ds, j, cap),
    ensures
        repeats(t, ds, j, n),
    decreases t, 1 + n, 0int,
{
    if n > 0 {
        lemma_conforms_node(t, ds[j]);
        lemma_run_repeats(t, ds, j + 1, n - 1, cap - 1);
    }
}

/// Siblings conform exactly when they align without a problem.
pub proof fn lemma_conforms(ps: Seq<Tree>, i: int, ds: Seq<Tree>, j: int, parent: Span)
    requires
        0 <= i,
        0 <= j <= ds.len(),
    ensures
        conforms(ps, i, ds, j) <==> align(ps, i, ds, j, parent).len() == 0,
    decreases ps, 2 * (ps.len() - i), 0int,
{
    if i >= ps.len() {
    } else {
        let p = ps[i];
        match directive_of(p) {
            DirectiveKind::Ignore => {
                lemma_conforms(ps, i + 1, ds, j, parent);
            },
            DirectiveKind::Optional | DirectiveKind::Repeatable => {
                let cap = if directive_of(p) is Optional {
                    1
                } else {
                    ds.len() - j
                };
                let most = reach(p, ds, j);
                if p.children.len() > 0 {
                    lemma_run_length_bounds(p.children[0], ds, j, cap);
                }
                assert(align(ps, i, ds, j, parent) == settle(ps, i, ds, j, most, most, parent));
                assert(conforms(ps, i, ds, j) == fits(ps, i, ds, j, cap));
                if fits(ps, i, ds, j, cap) {
                    let n = lemma_fits_witness(ps, i, ds, j, cap);
                    if n > 0 {
                        lemma_repeats_within_run(p.children[0], ds, j, n, cap);
                    }
                    lemma_conforms(ps, i + 1, ds, j + n, parent);
                    lemma_settle_finds(ps, i, ds, j, most, most, parent, n);
                }
                if settle(ps, i, ds, j, most, most, parent).len() == 0 {
                    let n = lemma_settle_witness(ps, i, ds, j, most, most, parent);
                    lemma_conforms(ps, i + 1, ds, j + n, parent);
                    if n > 0 {
                        lemma_run_repeats(p.children[0], ds, j, n, cap);
                    }
                    lemma_fits_from(ps, i, ds, j, cap, n);
                }
            },
            _ => {
                if j < ds.len() {
                    lemma_conforms_node(p, ds[j]);
                    lemma_conforms(ps, i + 1, ds, j + 1, parent);
                }
            },
        }
    }
}

/// Validation reports nothing exactly for the documents that conform.
pub proof fn law_clean_report_iff_conforms(p: Tree, d: Tree)
    requires
        directive_of(p).consumes(),
    ensures
        findings(p, d).len() == 0 <==> conforms_node(p, d),
        divergences(p, d).len() == 0 <==> conforms_node(p, d),
{
    lemma_conforms_node(p, d);
    lemma_sorted_by_position(divergences(p, d));
}

} // verus!
