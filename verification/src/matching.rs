//! What it means for a document to be held against a prescription: the
//! problems that the alignment of two trees gives.
//!
//! Two sequences of siblings are aligned from left to right. A node of the
//! prescription that is Verbatim, a Placeholder or a Substitution takes the
//! next node of the document, whether the two agree or not. An Ignore takes
//! none. An Optional or a Repeatable takes as many of the next nodes as its
//! subtree matches, one at most for an Optional; where the rest of the two
//! sequences cannot be aligned without a problem from there, it takes fewer,
//! and where no number helps, the first choice stands and its problems are
//! the ones reported.

use crate::directive::{directive_of, DirectiveKind};
use crate::errors::{Problem, ProblemKind};
use crate::node::{Span, Tree};
use crate::order::sorted_by_position;
use vstd::prelude::*;

verus! {

/// The problems that one node of the document gives when it stands where the
/// node `p` of the prescription asks for one. A node that asks for none gives
/// none.
pub open spec fn node_problems(p: Tree, d: Tree) -> Seq<Problem>
    decreases p, 0int, 0int,
{
    match directive_of(p) {
        DirectiveKind::Verbatim => {
            if p.kind != d.kind {
                seq![Problem::mismatch_at(ProblemKind::KindMismatch, p.span, d.span)]
            } else if p.kind.is_leaf() {
                if p.text != d.text {
                    seq![Problem::mismatch_at(ProblemKind::TextMismatch, p.span, d.span)]
                } else {
                    Seq::empty()
                }
            } else {
                align(p.children, 0, d.children, 0, d.span)
            }
        },
        DirectiveKind::Placeholder => {
            if p.kind.category() != d.kind.category() {
                seq![Problem::mismatch_at(ProblemKind::CategoryMismatch, p.span, d.span)]
            } else {
                Seq::empty()
            }
        },
        DirectiveKind::Substitution => {
            if p.kind != d.kind || d.children.len() > 0 {
                seq![Problem::mismatch_at(ProblemKind::KindMismatch, p.span, d.span)]
            } else if d.text.len() == 0 || d.text == p.text {
                seq![Problem::mismatch_at(ProblemKind::UnsubstitutedPlaceholder, p.span, d.span)]
            } else {
                Seq::empty()
            }
        },
        _ => Seq::empty(),
    }
}

/// The node `d` stands for `p` without a problem. Only a node that takes one
/// node of the document can be matched by one.
pub open spec fn node_matches(p: Tree, d: Tree) -> bool
    decreases p, 1int, 0int,
{
    directive_of(p).consumes() && node_problems(p, d).len() == 0
}

/// How many nodes of `ds`, from `j` on and without a gap, match `t`: at most
/// `cap` of them.
pub open spec fn run_length(t: Tree, ds: Seq<Tree>, j: int, cap: int) -> int
    decreases t, 2 + cap, 0int,
{
    if cap <= 0 || j < 0 || j >= ds.len() || !node_matches(t, ds[j]) {
        0
    } else {
        1 + run_length(t, ds, j + 1, cap - 1)
    }
}

/// The most nodes that the wrapping node `p` can take from `ds` at `j`: none
/// where it wraps nothing, one at most for an Optional.
pub open spec fn reach(p: Tree, ds: Seq<Tree>, j: int) -> int
    decreases p, 0int, 0int,
{
    if p.children.len() == 0 {
        0
    } else if directive_of(p) is Optional {
        run_length(p.children[0], ds, j, 1)
    } else {
        run_length(p.children[0], ds, j, ds.len() - j)
    }
}

/// One problem for each node of the document from `j` on.
pub open spec fn extras(ds: Seq<Tree>, j: int) -> Seq<Problem> {
    Seq::new((ds.len() - j) as nat, |k: int| Problem::extra_at(ds[j + k].span))
}

/// The problems of aligning the prescription's siblings from `i` on with the
/// document's siblings from `j` on. `parent` is the place of the document's
/// node that holds the siblings: content that is missing is missing there.
pub open spec fn align(ps: Seq<Tree>, i: int, ds: Seq<Tree>, j: int, parent: Span) -> Seq<Problem>
    decreases ps, 2 * (ps.len() - i), 0int,
{
    if i < 0 || j < 0 || j > ds.len() {
        Seq::empty()
    } else if i >= ps.len() {
        extras(ds, j)
    } else {
        let p = ps[i];
        match directive_of(p) {
            DirectiveKind::Ignore => align(ps, i + 1, ds, j, parent),
            DirectiveKind::Optional | DirectiveKind::Repeatable => {
                let most = reach(p, ds, j);
                settle(ps, i, ds, j, most, most, parent)
            },
            _ => {
                if j >= ds.len() {
                    seq![Problem::mismatch_at(ProblemKind::MissingContent, p.span, parent)] + align(
                        ps,
                        i + 1,
                        ds,
                        j,
                        parent,
                    )
                } else {
                    node_problems(p, ds[j]) + align(ps, i + 1, ds, j + 1, parent)
                }
            },
        }
    }
}

/// The search for the number of nodes that the wrapping node `ps[i]` takes,
/// from `k` downwards. The first number that leaves the rest of the alignment
/// without a problem settles it. Where none does, down to zero, the problems
/// are those of the first choice, `most`.
pub open spec fn settle(
    ps: Seq<Tree>,
    i: int,
    ds: Seq<Tree>,
    j: int,
    k: int,
    most: int,
    parent: Span,
) -> Seq<Problem>
    decreases ps, 2 * (ps.len() - i) - 1, k,
{
    if i < 0 || i >= ps.len() || k < 0 {
        Seq::empty()
    } else if align(ps, i + 1, ds, j + k, parent).len() == 0 {
        Seq::empty()
    } else if k == 0 {
        align(ps, i + 1, ds, j + most, parent)
    } else {
        settle(ps, i, ds, j, k - 1, most, parent)
    }
}

/// The problems of holding the document `d` against the prescription `p`, in
/// the order in which the alignment meets them.
pub open spec fn divergences(p: Tree, d: Tree) -> Seq<Problem> {
    node_problems(p, d)
}

/// What validation reports: the divergences, by their place in the document.
pub open spec fn findings(p: Tree, d: Tree) -> Seq<Problem> {
    sorted_by_position(divergences(p, d))
}

} // verus!
