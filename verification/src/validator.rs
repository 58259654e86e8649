//! The matcher: it aligns a document with a prescription and collects the
//! problems.

use crate::conformance::{conforms_node, law_clean_report_iff_conforms};
use crate::directive::{classify, DirectiveKind};
use crate::document::{Document, Prescription};
use crate::errors::{Problem, ProblemKind};
use crate::laws::{all_divergences, law_findings_are_errors};
use crate::matching::{
    align, divergences, extras, findings, node_matches, node_problems, reach, run_length, settle,
};
use crate::node::{trees, Node, Span, Tree};
use crate::order::{ordered, sort_by_position};
use vstd::prelude::*;

verus! {

/// The problems of one node of the document that stands where `p` asks for a
/// node.
pub fn node_problems_of(p: &Node, d: &Node) -> (r: Vec<Problem>)
    ensures
        r@ == node_problems(p@, d@),
    decreases p, 0int, 0int,
{
    proof {
        p.lemma_view();
        d.lemma_view();
    }
    match classify(p) {
        DirectiveKind::Verbatim => {
            if p.kind != d.kind {
                vec![Problem::mismatch(ProblemKind::KindMismatch, p.span, d.span)]
            } else if p.kind.leaf() {
                if p.text == d.text {
                    Vec::new()
                } else {
                    vec![Problem::mismatch(ProblemKind::TextMismatch, p.span, d.span)]
                }
            } else {
                align_from(&p.children, 0, &d.children, 0, d.span)
            }
        },
        DirectiveKind::Placeholder => {
            if p.kind.block_or_inline() != d.kind.block_or_inline() {
                vec![Problem::mismatch(ProblemKind::CategoryMismatch, p.span, d.span)]
            } else {
                Vec::new()
            }
        },
        DirectiveKind::Substitution => {
            if p.kind != d.kind || d.children.len() > 0 {
                vec![Problem::mismatch(ProblemKind::KindMismatch, p.span, d.span)]
            } else if d.text.as_str().unicode_len() == 0 || p.text == d.text {
                vec![Problem::mismatch(ProblemKind::UnsubstitutedPlaceholder, p.span, d.span)]
            } else {
                Vec::new()
            }
        },
        _ => Vec::new(),
    }
}

/// Whether `d` stands for `p` without a problem.
pub fn accepts(p: &Node, d: &Node) -> (r: bool)
    ensures
        r == node_matches(p@, d@),
    decreases p, 1int, 0int,
{
    classify(p).is_consuming() && node_problems_of(p, d).len() == 0
}

/// Counts the nodes of `ds` from `j` on that match `t` one after the other,
/// up to `cap`.
pub fn run_length_of(t: &Node, ds: &Vec<Node>, j: usize, cap: usize) -> (r: usize)
    ensures
        r == run_length(t@, trees(ds@), j as int, cap as int),
        r <= cap,
        j <= ds.len() ==> j + r <= ds.len(),
    decreases t, 2int, 0int,
{
    if j >= ds.len() {
        return 0;
    }
    let mut n: usize = 0;
    while n < cap && j + n < ds.len() && accepts(t, &ds[j + n])
        invariant
            j <= ds.len(),
            n <= cap,
            j + n <= ds.len(),
            run_length(t@, trees(ds@), j as int, cap as int) == n + run_length(
                t@,
                trees(ds@),
                j + n,
                cap - n,
            ),
        decreases cap - n,
    {
        n = n + 1;
    }
    n
}

/// The most nodes that the wrapping node `p` can take from `ds` at `j`.
pub fn reach_of(p: &Node, ds: &Vec<Node>, j: usize) -> (r: usize)
    ensures
        r == reach(p@, trees(ds@), j as int),
        j <= ds.len() ==> j + r <= ds.len(),
    decreases p, 3int, 0int,
{
    proof {
        p.lemma_view();
    }
    if p.children.len() == 0 || j >= ds.len() {
        0
    } else {
        match classify(p) {
            DirectiveKind::Optional => run_length_of(&p.children[0], ds, j, 1),
            _ => run_length_of(&p.children[0], ds, j, ds.len() - j),
        }
    }
}

/// The problems of aligning the siblings `ps` of the prescription from `i`
/// on with the siblings `ds` of the document from `j` on.
pub fn align_from(ps: &Vec<Node>, i: usize, ds: &Vec<Node>, j: usize, parent: Span) -> (r: Vec<
    Problem,
>)
    ensures
        r@ == align(trees(ps@), i as int, trees(ds@), j as int, parent),
    decreases ps, ps.len() - i, 0int,
{
    if j > ds.len() {
        return Vec::new();
    }
    if i >= ps.len() {
        let mut out: Vec<Problem> = Vec::new();
        let mut k: usize = j;
        while k < ds.len()
            invariant
                j <= k <= ds.len(),
                out@.len() == k - j,
                forall|n: int| 0 <= n < k - j ==> out@[n] == Problem::extra_at(ds@[j + n]@.span),
            decreases ds.len() - k,
        {
            out.push(Problem::extra(ds[k].span));
            k = k + 1;
        }
        assert(out@ =~= extras(trees(ds@), j as int));
        return out;
    }
    let p = &ps[i];
    let directive = classify(p);
    match directive {
        DirectiveKind::Ignore => align_from(ps, i + 1, ds, j, parent),
        DirectiveKind::Optional | DirectiveKind::Repeatable => {
            let most = reach_of(p, ds, j);
            let first = align_from(ps, i + 1, ds, j + most, parent);
            assert(align(trees(ps@), i as int, trees(ds@), j as int, parent) == settle(
                trees(ps@),
                i as int,
                trees(ds@),
                j as int,
                most as int,
                most as int,
                parent,
            ));
            if first.len() == 0 {
                assert(first@ =~= Seq::empty());
                return first;
            }
            let mut k: usize = most;
            while k > 0
                invariant
                    i < ps.len(),
                    j + most <= ds.len(),
                    k <= most,
                    first@ == align(trees(ps@), i + 1, trees(ds@), j + most, parent),
                    k > 0 ==> align(trees(ps@), i as int, trees(ds@), j as int, parent) == settle(
                        trees(ps@),
                        i as int,
                        trees(ds@),
                        j as int,
                        k - 1,
                        most as int,
                        parent,
                    ),
                    k == 0 ==> align(trees(ps@), i as int, trees(ds@), j as int, parent) == first@,
                decreases k,
            {
                k = k - 1;
                let other = align_from(ps, i + 1, ds, j + k, parent);
                if other.len() == 0 {
                    assert(other@ =~= Seq::empty());
                    return other;
                }
            }
            first
        },
        _ => {
            if j >= ds.len() {
                let mut out = vec![Problem::mismatch(ProblemKind::MissingContent, p.span, parent)];
                let mut rest = align_from(ps, i + 1, ds, j, parent);
                out.append(&mut rest);
                out
            } else {
                let mut out = node_problems_of(p, &ds[j]);
                let mut rest = align_from(ps, i + 1, ds, j + 1, parent);
                out.append(&mut rest);
                out
            }
        },
    }
}

/// A prescription and a document to hold against it.
#[derive(Debug)]
pub struct Validator {
    prescription: Prescription,
    document: Document,
}

impl Validator {
    pub closed spec fn prescription_tree(&self) -> Tree {
        self.prescription@
    }

    pub closed spec fn document_tree(&self) -> Tree {
        self.document@
    }

    pub fn new(prescription: Prescription, document: Document) -> (r: Validator)
        ensures
            r.prescription_tree() == prescription@,
            r.document_tree() == document@,
    {
        Validator { prescription, document }
    }

    /// Holds the document against the prescription. Every divergence is
    /// reported, as an error, and the report is ordered by the place in the
    /// document. An empty report means that the document conforms.
    pub fn validate(&self) -> (r: Vec<Problem>)
        ensures
            r@ == findings(self.prescription_tree(), self.document_tree()),
            ordered(r@),
            all_divergences(r@),
            r@.len() == divergences(self.prescription_tree(), self.document_tree()).len(),
            r@.len() == 0 <==> conforms_node(self.prescription_tree(), self.document_tree()),
    {
        let found = node_problems_of(self.prescription.root(), self.document.root());
        proof {
            law_findings_are_errors(self.prescription@, self.document@);
            law_clean_report_iff_conforms(self.prescription@, self.document@);
        }
        sort_by_position(found)
    }
}

} // verus!
