//! Problems, which are returned as data, and fatal errors, which end the
//! operation that met them.

use crate::node::Span;
use vstd::prelude::*;

verus! {

/// How serious a problem is. A warning is about the prescription itself, an
/// error about a document that does not conform to it.
#[derive(Clone, Copy, Debug, PartialEq, Eq, Structural)]
pub enum Severity {
    Warning,
    Error,
}

/// What went wrong.
#[derive(Clone, Copy, Debug, PartialEq, Eq, Structural)]
pub enum ProblemKind {
    /// An Optional or Repeatable directive wraps no subtree.
    EmptyDirective,
    /// An Optional or Repeatable directive wraps more than one subtree.
    SplitDirective,
    /// An Optional or Repeatable directive wraps another one directly.
    NestedDirective,
    /// The document holds a node of another kind.
    KindMismatch,
    /// The document holds the same kind of node with other text.
    TextMismatch,
    /// A block stands where the placeholder asks for inline content, or the
    /// other way round.
    CategoryMismatch,
    /// The document left a substitution token as it was, or empty.
    UnsubstitutedPlaceholder,
    /// The document ended before the prescription did.
    MissingContent,
    /// The document goes on after the prescription has ended.
    ExtraContent,
}

/// Where a problem is: in the prescription, in the document, or at a pair of
/// places, one in each.
#[derive(Clone, Copy, Debug, PartialEq, Eq, Structural)]
pub enum Location {
    Prescription(Span),
    Document(Span),
    Both { prescription: Span, document: Span },
}

/// One finding, about a prescription or about a document held against one.
#[derive(Clone, Copy, Debug, PartialEq, Eq, Structural)]
pub struct Problem {
    pub severity: Severity,
    pub kind: ProblemKind,
    pub location: Location,
}

/// The problems that an operation found.
pub type ValidationProblem = Problem;

/// Why an operation could not be carried out, or, for `PrescriptionError`,
/// what is wrong with the prescription it was given.
#[derive(Debug, PartialEq, Eq)]
pub enum HowserError {
    /// The tree has a root and nothing below it.
    EmptyDocument,
    /// The tree is not what a successful parse leaves behind.
    InvalidSource,
    /// The prescription misuses a directive. This is a finding, not a
    /// failure: the caller decides whether to go on.
    PrescriptionError(Problem),
    /// What the run depends on failed: a file, a batch entry, an argument.
    RuntimeError(String),
    /// The command line names no known operation.
    Usage(String),
}

pub type HowserResult<T> = Result<T, HowserError>;

/// The mathematical model of a [`HowserError`]: a message is the sequence of
/// its characters.
pub ghost enum ErrorView {
    EmptyDocument,
    InvalidSource,
    PrescriptionError(Problem),
    RuntimeError(Seq<char>),
    Usage(Seq<char>),
}

impl View for HowserError {
    type V = ErrorView;

    open spec fn view(&self) -> ErrorView {
        match self {
            HowserError::EmptyDocument => ErrorView::EmptyDocument,
            HowserError::InvalidSource => ErrorView::InvalidSource,
            HowserError::PrescriptionError(w) => ErrorView::PrescriptionError(*w),
            HowserError::RuntimeError(text) => ErrorView::RuntimeError(text@),
            HowserError::Usage(text) => ErrorView::Usage(text@),
        }
    }
}

/// The model of what an operation hands back: the problems it found, or the
/// error that ended it.
pub open spec fn outcome_view(r: Result<Vec<Problem>, HowserError>) -> Result<
    Seq<Problem>,
    ErrorView,
> {
    match r {
        Ok(problems) => Ok(problems@),
        Err(e) => Err(e@),
    }
}

impl ProblemKind {
    /// The kinds that `into_prescription` reports; the others come from
    /// validation.
    pub open spec fn is_authoring(self) -> bool {
        self is EmptyDirective || self is SplitDirective || self is NestedDirective
    }

    /// The words that describe a problem of this kind.
    pub open spec fn message_text(self) -> Seq<char> {
        match self {
            ProblemKind::EmptyDirective => "directive wraps an empty subtree"@,
            ProblemKind::SplitDirective => "directive wraps more than one subtree"@,
            ProblemKind::NestedDirective => "directive wraps another directive"@,
            ProblemKind::KindMismatch => "node kind differs"@,
            ProblemKind::TextMismatch => "literal text differs"@,
            ProblemKind::CategoryMismatch => "placeholder category differs"@,
            ProblemKind::UnsubstitutedPlaceholder => "unsubstituted placeholder"@,
            ProblemKind::MissingContent => "required content missing"@,
            ProblemKind::ExtraContent => "unexpected extra content"@,
        }
    }

    pub fn message(self) -> (r: String)
        ensures
            r@ == self.message_text(),
    {
        match self {
            ProblemKind::EmptyDirective => "directive wraps an empty subtree".to_owned(),
            ProblemKind::SplitDirective => "directive wraps more than one subtree".to_owned(),
            ProblemKind::NestedDirective => "directive wraps another directive".to_owned(),
            ProblemKind::KindMismatch => "node kind differs".to_owned(),
            ProblemKind::TextMismatch => "literal text differs".to_owned(),
            ProblemKind::CategoryMismatch => "placeholder category differs".to_owned(),
            ProblemKind::UnsubstitutedPlaceholder => "unsubstituted placeholder".to_owned(),
            ProblemKind::MissingContent => "required content missing".to_owned(),
            ProblemKind::ExtraContent => "unexpected extra content".to_owned(),
        }
    }
}

impl Location {
    /// The place in the document, where the problem has one.
    pub open spec fn document_side(self) -> Option<Span> {
        match self {
            Location::Prescription(_) => None,
            Location::Document(span) => Some(span),
            Location::Both { prescription: _, document } => Some(document),
        }
    }

    /// The place in the prescription, where the problem has one.
    pub open spec fn prescription_side(self) -> Option<Span> {
        match self {
            Location::Prescription(span) => Some(span),
            Location::Document(_) => None,
            Location::Both { prescription, document: _ } => Some(prescription),
        }
    }

    pub fn document_span(&self) -> (r: Option<Span>)
        ensures
            r == self.document_side(),
    {
        match self {
            Location::Prescription(_) => None,
            Location::Document(span) => Some(*span),
            Location::Both { prescription: _, document } => Some(*document),
        }
    }

    pub fn prescription_span(&self) -> (r: Option<Span>)
        ensures
            r == self.prescription_side(),
    {
        match self {
            Location::Prescription(span) => Some(*span),
            Location::Document(_) => None,
            Location::Both { prescription, document: _ } => Some(*prescription),
        }
    }

    /// Every location names at least one place.
    pub proof fn lemma_anchored(self)
        ensures
            self.document_side() is Some || self.prescription_side() is Some,
    {
    }
}

impl Problem {
    /// A finding about the prescription itself, at a place in it.
    pub open spec fn warning_at(kind: ProblemKind, span: Span) -> Problem {
        Problem { severity: Severity::Warning, kind, location: Location::Prescription(span) }
    }

    /// A node of the document that differs from the node of the prescription
    /// it was held against.
    pub open spec fn mismatch_at(kind: ProblemKind, prescription: Span, document: Span) -> Problem {
        Problem {
            severity: Severity::Error,
            kind,
            location: Location::Both { prescription, document },
        }
    }

    /// A node of the document that the prescription has no place for.
    pub open spec fn extra_at(document: Span) -> Problem {
        Problem {
            severity: Severity::Error,
            kind: ProblemKind::ExtraContent,
            location: Location::Document(document),
        }
    }

    pub fn warning(kind: ProblemKind, span: Span) -> (r: Problem)
        ensures
            r == Problem::warning_at(kind, span),
    {
        Problem { severity: Severity::Warning, kind, location: Location::Prescription(span) }
    }

    pub fn mismatch(kind: ProblemKind, prescription: Span, document: Span) -> (r: Problem)
        ensures
            r == Problem::mismatch_at(kind, prescription, document),
    {
        Problem {
            severity: Severity::Error,
            kind,
            location: Location::Both { prescription, document },
        }
    }

    pub fn extra(document: Span) -> (r: Problem)
        ensures
            r == Problem::extra_at(document),
    {
        Problem {
            severity: Severity::Error,
            kind: ProblemKind::ExtraContent,
            location: Location::Document(document),
        }
    }

    pub fn message(&self) -> (r: String)
        ensures
            r@ == self.kind.message_text(),
    {
        self.kind.message()
    }

    pub fn is_error(&self) -> (r: bool)
        ensures
            r == (self.severity == Severity::Error),
    {
        match self.severity {
            Severity::Error => true,
            Severity::Warning => false,
        }
    }
}

impl HowserError {
    /// Every error but a finding about the prescription ends the operation.
    pub open spec fn fatal(self) -> bool {
        !(self is PrescriptionError)
    }

    pub fn is_fatal(&self) -> (r: bool)
        ensures
            r == self.fatal(),
    {
        match self {
            HowserError::PrescriptionError(_) => false,
            _ => true,
        }
    }
}

} // verus!
