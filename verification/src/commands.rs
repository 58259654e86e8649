//! The two operations on parsed sources: checking a prescription, and
//! validating a document against one.

use crate::authoring::{directive_free, first_violation, lemma_directive_free_is_well_placed,
    lemma_violation_is_warning, sound};
use crate::conformance::conforms_node;
use crate::document::{authoring_error, construction_error, Document};
use crate::errors::{outcome_view, ErrorView, HowserError, Problem, Severity};
use crate::laws::all_divergences;
use crate::matching::findings;
use crate::node::{Node, Tree};
use crate::order::ordered;
use crate::validator::Validator;
use vstd::prelude::*;

verus! {

/// What checking a prescription gives. A tree that cannot be a document, or
/// that is not sound, ends the check with an error. A misplaced directive is
/// what the check is there to find: the first one is the one problem of the
/// report. Without one the report is empty.
pub open spec fn check_outcome(t: Tree) -> Result<Seq<Problem>, ErrorView> {
    match construction_error(t) {
        Some(e) => Err(e@),
        None => match authoring_error(t) {
            Some(HowserError::PrescriptionError(w)) => Ok(seq![w]),
            Some(e) => Err(e@),
            None => Ok(Seq::empty()),
        },
    }
}

/// What validating a document against a prescription gives. The
/// prescription is made first, and what stands in its way ends the
/// validation, a misplaced directive too. Then the document is made. The
/// report holds what the alignment of the two finds.
pub open spec fn validate_outcome(rx: Tree, doc: Tree) -> Result<Seq<Problem>, ErrorView> {
    match construction_error(rx) {
        Some(e) => Err(e@),
        None => match authoring_error(rx) {
            Some(e) => Err(e@),
            None => match construction_error(doc) {
                Some(e) => Err(e@),
                None => Ok(findings(rx, doc)),
            },
        },
    }
}

/// Checks that a parsed source can serve as a prescription.
pub fn check(root: Node, filename: &str) -> (r: Result<Vec<Problem>, HowserError>)
    ensures
        outcome_view(r) == check_outcome(root@),
{
    let document = match Document::new(root, Some(filename.to_owned())) {
        Ok(document) => document,
        Err(e) => {
            return Err(e);
        },
    };
    match document.into_prescription() {
        Err(HowserError::PrescriptionError(warning)) => {
            let report = vec![warning];
            assert(report@ =~= seq![warning]);
            Ok(report)
        },
        Err(error) => Err(error),
        Ok(_) => {
            let report: Vec<Problem> = Vec::new();
            assert(report@ =~= Seq::empty());
            Ok(report)
        },
    }
}

/// Validates a parsed document against a parsed prescription.
pub fn validate(rx_root: Node, rx_name: &str, doc_root: Node, document_name: &str) -> (r: Result<
    Vec<Problem>,
    HowserError,
>)
    ensures
        outcome_view(r) == validate_outcome(rx_root@, doc_root@),
        r matches Ok(report) ==> ordered(report@) && all_divergences(report@) && (report@.len() == 0
            <==> conforms_node(rx_root@, doc_root@)),
{
    let rx_document = match Document::new(rx_root, Some(rx_name.to_owned())) {
        Ok(document) => document,
        Err(e) => {
            return Err(e);
        },
    };
    let rx = match rx_document.into_prescription() {
        Ok(rx) => rx,
        Err(e) => {
            return Err(e);
        },
    };
    let document = match Document::new(doc_root, Some(document_name.to_owned())) {
        Ok(document) => document,
        Err(e) => {
            return Err(e);
        },
    };
    Ok(Validator::new(rx, document).validate())
}

/// A check reports one problem at most, and that one is a warning about a
/// directive, at a place in the prescription.
pub proof fn law_check_reports_one_warning(t: Tree)
    ensures
        check_outcome(t) matches Ok(report) ==> report.len() <= 1 && (report.len() == 1 ==> {
            &&& report[0].severity == Severity::Warning
            &&& report[0].kind.is_authoring()
            &&& report[0].location is Prescription
            &&& first_violation(t) == Some(report[0])
        }),
{
    lemma_violation_is_warning(t);
}

/// The check of a sound document without directives reports nothing.
pub proof fn law_plain_prescription_checks_clean(t: Tree)
    requires
        construction_error(t) is None,
        sound(t),
        directive_free(t),
    ensures
        check_outcome(t) == Ok::<Seq<Problem>, ErrorView>(Seq::empty()),
{
    lemma_directive_free_is_well_placed(t);
}

} // verus!
