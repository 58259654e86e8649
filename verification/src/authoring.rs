//! The rules that a prescription has to keep: where its directives may stand.

use crate::directive::{classify, directive_of};
use crate::errors::{Problem, ProblemKind};
use crate::node::{Node, NodeKind, Tree};
use vstd::prelude::*;

verus! {

/// What is wrong with the directive of this node, taken by itself. An
/// Optional or Repeatable directive wraps exactly one subtree, and that
/// subtree is not an Optional or Repeatable of its own.
pub open spec fn local_violation(t: Tree) -> Option<ProblemKind> {
    if !directive_of(t).wraps() {
        None
    } else if t.children.len() == 0 {
        Some(ProblemKind::EmptyDirective)
    } else if t.children.len() > 1 {
        Some(ProblemKind::SplitDirective)
    } else if directive_of(t.children[0]).wraps() {
        Some(ProblemKind::NestedDirective)
    } else {
        None
    }
}

/// The first misplaced directive of a tree in document order: the node's own
/// before those below it, an earlier child's before a later one's.
pub open spec fn first_violation(t: Tree) -> Option<Problem>
    decreases t, 0int,
{
    match local_violation(t) {
        Some(kind) => Some(Problem::warning_at(kind, t.span)),
        None => first_violation_among(t.children, 0),
    }
}

/// The first misplaced directive in the trees of `ts` from `i` on.
pub open spec fn first_violation_among(ts: Seq<Tree>, i: int) -> Option<Problem>
    decreases ts, ts.len() - i,
{
    if i < 0 || i >= ts.len() {
        None
    } else {
        match first_violation(ts[i]) {
            Some(w) => Some(w),
            None => first_violation_among(ts, i + 1),
        }
    }
}

/// Every directive of the tree is well placed.
pub open spec fn well_placed(t: Tree) -> bool {
    first_violation(t) is None
}

/// The tree is one that a parser can have left behind: a leaf that is no
/// annotation has nothing below it, and only the root is a document.
pub open spec fn sound(t: Tree) -> bool
    decreases t, 0int,
{
    &&& t.kind.is_leaf() && !t.kind.is_annotation() ==> t.children.len() == 0
    &&& sound_among(t.children, 0)
}

/// The trees of `ts` from `i` on are sound, and none of them is a document.
pub open spec fn sound_among(ts: Seq<Tree>, i: int) -> bool
    decreases ts, ts.len() - i,
{
    if i < 0 || i >= ts.len() {
        true
    } else {
        !(ts[i].kind is Document) && sound(ts[i]) && sound_among(ts, i + 1)
    }
}

/// No directive stands anywhere in the tree.
pub open spec fn directive_free(t: Tree) -> bool
    decreases t, 0int,
{
    directive_of(t) is Verbatim && directive_free_among(t.children, 0)
}

/// No directive stands in the trees of `ts` from `i` on.
pub open spec fn directive_free_among(ts: Seq<Tree>, i: int) -> bool
    decreases ts, ts.len() - i,
{
    if i < 0 || i >= ts.len() {
        true
    } else {
        directive_free(ts[i]) && directive_free_among(ts, i + 1)
    }
}

/// Where no tree from `i` on has a misplaced directive, each of them is well
/// placed, and the other way round.
pub proof fn lemma_first_violation_among(ts: Seq<Tree>, i: int)
    requires
        0 <= i,
    ensures
        first_violation_among(ts, i) is None <==> forall|k: int|
            i <= k < ts.len() ==> well_placed(#[trigger] ts[k]),
    decreases ts.len() - i,
{
    if i < ts.len() {
        lemma_first_violation_among(ts, i + 1);
        if first_violation_among(ts, i) is None {
            assert forall|k: int| i <= k < ts.len() implies well_placed(#[trigger] ts[k]) by {
                if k > i {
                }
            }
        } else if first_violation(ts[i]) is None {
        } else {
            assert(!well_placed(ts[i]));
        }
    }
}

/// A tree is well placed exactly when its own directive is and each tree
/// below it is.
pub proof fn lemma_well_placed(t: Tree)
    ensures
        well_placed(t) <==> local_violation(t) is None && forall|k: int|
            0 <= k < t.children.len() ==> well_placed(#[trigger] t.children[k]),
{
    lemma_first_violation_among(t.children, 0);
}

/// What is reported about a prescription is a warning, of one of the kinds
/// that are about directives, at a place in the prescription.
pub proof fn lemma_violation_is_warning(t: Tree)
    ensures
        first_violation(t) matches Some(w) ==> w.severity == crate::errors::Severity::Warning
            && w.kind.is_authoring() && w.location is Prescription,
    decreases t, 0int,
{
    if local_violation(t) is None {
        lemma_violation_among_is_warning(t.children, 0);
    }
}

pub proof fn lemma_violation_among_is_warning(ts: Seq<Tree>, i: int)
    ensures
        first_violation_among(ts, i) matches Some(w) ==> w.severity
            == crate::errors::Severity::Warning && w.kind.is_authoring()
            && w.location is Prescription,
    decreases ts, ts.len() - i,
{
    if 0 <= i < ts.len() {
        lemma_violation_is_warning(ts[i]);
        lemma_violation_among_is_warning(ts, i + 1);
    }
}

/// A tree without directives has none that is misplaced.
pub proof fn lemma_directive_free_is_well_placed(t: Tree)
    requires
        directive_free(t),
    ensures
        well_placed(t),
    decreases t, 0int,
{
    lemma_directive_free_among_is_well_placed(t.children, 0);
}

pub proof fn lemma_directive_free_among_is_well_placed(ts: Seq<Tree>, i: int)
    requires
        directive_free_among(ts, i),
    ensures
        first_violation_among(ts, i) is None,
    decreases ts, ts.len() - i,
{
    if 0 <= i < ts.len() {
        lemma_directive_free_is_well_placed(ts[i]);
        lemma_directive_free_among_is_well_placed(ts, i + 1);
    }
}

/// Looks for the first misplaced directive of a tree.
pub fn find_violation(node: &Node) -> (r: Option<Problem>)
    ensures
        r == first_violation(node@),
    decreases node,
{
    proof {
        node.lemma_view();
    }
    if classify(node).is_wrapping() {
        if node.children.len() == 0 {
            return Some(Problem::warning(ProblemKind::EmptyDirective, node.span));
        }
        if node.children.len() > 1 {
            return Some(Problem::warning(ProblemKind::SplitDirective, node.span));
        }
        if classify(&node.children[0]).is_wrapping() {
            return Some(Problem::warning(ProblemKind::NestedDirective, node.span));
        }
    }
    let mut i: usize = 0;
    while i < node.children.len()
        invariant
            i <= node.children.len(),
            node@.children.len() == node.children.len(),
            forall|k: int| 0 <= k < node.children.len() ==> node@.children[k] == node.children@[k]@,
            local_violation(node@) is None,
            first_violation_among(node@.children, 0) == first_violation_among(
                node@.children,
                i as int,
            ),
        decreases node.children.len() - i,
    {
        match find_violation(&node.children[i]) {
            Some(w) => {
                return Some(w);
            },
            None => {},
        }
        i = i + 1;
    }
    None
}

/// Whether the tree is one that a parser can have left behind.
pub fn is_sound(node: &Node) -> (r: bool)
    ensures
        r == sound(node@),
    decreases node,
{
    proof {
        node.lemma_view();
    }
    if node.kind.leaf() && !node.kind.annotation() && node.children.len() > 0 {
        return false;
    }
    let mut i: usize = 0;
    while i < node.children.len()
        invariant
            i <= node.children.len(),
            node@.children.len() == node.children.len(),
            forall|k: int| 0 <= k < node.children.len() ==> node@.children[k] == node.children@[k]@,
            sound_among(node@.children, 0) == sound_among(node@.children, i as int),
        decreases node.children.len() - i,
    {
        let child = &node.children[i];
        proof {
            child.lemma_view();
        }
        match child.kind {
            NodeKind::Document => {
                return false;
            },
            _ => {},
        }
        if !is_sound(child) {
            return false;
        }
        i = i + 1;
    }
    true
}

} // verus!
