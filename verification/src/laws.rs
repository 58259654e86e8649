//! What holds of every alignment.

use crate::directive::{directive_of, DirectiveKind};
use crate::errors::{Problem, ProblemKind, Severity};
use crate::matching::{align, divergences, findings, node_problems, reach, settle};
use crate::node::{Span, Tree};
use crate::order::{lemma_sorted_by_position, sorted_by_position};
use vstd::prelude::*;

verus! {

/// A problem of the kind that validation reports: an error, about the
/// document, with a place in it.
pub open spec fn is_divergence(x: Problem) -> bool {
    x.severity == Severity::Error && !x.kind.is_authoring() && x.location.document_side() is Some
}

/// Every problem of the list is one that validation reports.
pub open spec fn all_divergences(s: Seq<Problem>) -> bool {
    forall|k: int| 0 <= k < s.len() ==> is_divergence(#[trigger] s[k])
}

/// Every problem that a node of the document gives is an error with a place
/// in the document.
pub proof fn lemma_node_problems_are_errors(p: Tree, d: Tree)
    ensures
        all_divergences(node_problems(p, d)),
    decreases p, 0int, 0int,
{
    if directive_of(p) is Verbatim && p.kind == d.kind && !p.kind.is_leaf() {
        lemma_align_problems_are_errors(p.children, 0, d.children, 0, d.span);
    }
}

/// Every problem of an alignment is an error with a place in the document.
pub proof fn lemma_align_problems_are_errors(
    ps: Seq<Tree>,
    i: int,
    ds: Seq<Tree>,
    j: int,
    parent: Span,
)
    ensures
        all_divergences(align(ps, i, ds, j, parent)),
    decreases ps, 2 * (ps.len() - i), 0int,
{
    if i < 0 || j < 0 || j > ds.len() {
    } else if i >= ps.len() {
    } else {
        let p = ps[i];
        match directive_of(p) {
            DirectiveKind::Ignore => {
                lemma_align_problems_are_errors(ps, i + 1, ds, j, parent);
            },
            DirectiveKind::Optional | DirectiveKind::Repeatable => {
                let most = reach(p, ds, j);
                lemma_settle_problems_are_errors(ps, i, ds, j, most, most, parent);
            },
            _ => {
                if j >= ds.len() {
                    lemma_align_problems_are_errors(ps, i + 1, ds, j, parent);
                } else {
                    lemma_node_problems_are_errors(p, ds[j]);
                    lemma_align_problems_are_errors(ps, i + 1, ds, j + 1, parent);
                }
            },
        }
    }
}

pub proof fn lemma_settle_problems_are_errors(
    ps: Seq<Tree>,
    i: int,
    ds: Seq<Tree>,
    j: int,
    k: int,
    most: int,
    parent: Span,
)
    ensures
        all_divergences(settle(ps, i, ds, j, k, most, parent)),
    decreases ps, 2 * (ps.len() - i) - 1, k,
{
    if i < 0 || i >= ps.len() || k < 0 {
    } else if align(ps, i + 1, ds, j + k, parent).len() == 0 {
    } else if k == 0 {
        lemma_align_problems_are_errors(ps, i + 1, ds, j + most, parent);
    } else {
        lemma_settle_problems_are_errors(ps, i, ds, j, k - 1, most, parent);
    }
}

/// Validation reports errors only, each with a place in the document, and
/// as many as there are divergences.
pub proof fn law_findings_are_errors(p: Tree, d: Tree)
    ensures
        all_divergences(findings(p, d)),
        findings(p, d).len() == divergences(p, d).len(),
{
    broadcast use vstd::seq_lib::group_to_multiset_ensures;

    let found = divergences(p, d);
    let sorted = findings(p, d);
    lemma_node_problems_are_errors(p, d);
    lemma_sorted_by_position(found);
    assert forall|k: int| 0 <= k < sorted.len() implies is_divergence(#[trigger] sorted[k]) by {
        assert(sorted.to_multiset().count(sorted[k]) > 0);
        assert(found.to_multiset().count(sorted[k]) > 0);
        assert(found.contains(sorted[k]));
    }
}

/// A substitution token that the document left as it was gives exactly one
/// problem: an unsubstituted placeholder, at the two places of the token.
pub proof fn law_unsubstituted_placeholder(p: Tree, d: Tree)
    requires
        directive_of(p) is Substitution,
        d.kind == p.kind,
        d.children.len() == 0,
        d.text == p.text,
    ensures
        node_problems(p, d) == seq![
            Problem::mismatch_at(ProblemKind::UnsubstitutedPlaceholder, p.span, d.span),
        ],
        findings(p, d) == node_problems(p, d),
        ProblemKind::UnsubstitutedPlaceholder.message_text() == "unsubstituted placeholder"@,
{
    let only = Problem::mismatch_at(ProblemKind::UnsubstitutedPlaceholder, p.span, d.span);
    let found = node_problems(p, d);
    assert(found.drop_last() =~= Seq::<Problem>::empty());
    assert(sorted_by_position(found.drop_last()) =~= Seq::<Problem>::empty());
    assert(sorted_by_position(found) =~= seq![only]);
}

} // verus!
