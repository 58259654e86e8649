//! Validating the pairs of a pharmacy one after the other.
//!
//! Reading and parsing the sources of a pair is the caller's work. The batch
//! says which pair is next, takes what its validation gave, and decides how
//! to go on: with the next pair, or to the end.

use crate::errors::{outcome_view, ErrorView, HowserError, Problem};
use crate::pharmacy::pairs_view;
use vstd::prelude::*;
use vstd::string::StringExecFns;

verus! {

/// A run over the pairs of a pharmacy that has a pair to validate next.
#[derive(Debug)]
pub struct Batch {
    pairs: Vec<(String, Option<String>)>,
    position: usize,
    fail_early: bool,
    report: Vec<Problem>,
}

/// What the caller of a batch does next.
#[derive(Debug)]
pub enum BatchStep {
    /// Validate this document against this prescription, and hand the
    /// outcome to `batch`.
    Validate { batch: Batch, prescription: String, document: String },
    /// The run is over, with this outcome.
    Done(Result<Vec<Problem>, HowserError>),
}

/// The model of a [`Batch`].
pub ghost struct BatchView {
    pub pairs: Seq<(Seq<char>, Option<Seq<char>>)>,
    pub position: int,
    pub fail_early: bool,
    pub report: Seq<Problem>,
}

/// The model of a [`BatchStep`].
pub ghost enum StepView {
    Validate { batch: BatchView, prescription: Seq<char>, document: Seq<char> },
    Done(Result<Seq<Problem>, ErrorView>),
}

/// The message for a pair whose document is not named by a string.
pub open spec fn unnamed_document_text(prescription: Seq<char>) -> Seq<char> {
    "The document corresponding to "@ + prescription + " could not be parsed as a string."@
}

/// What a run does at its position. After the last pair it ends with its
/// report. A pair whose document is not named ends it with a runtime error.
/// Any other pair is to be validated.
pub open spec fn proceed(b: BatchView) -> StepView {
    if b.position < 0 || b.position >= b.pairs.len() {
        StepView::Done(Ok(b.report))
    } else {
        match b.pairs[b.position].1 {
            None => StepView::Done(
                Err(ErrorView::RuntimeError(unnamed_document_text(b.pairs[b.position].0))),
            ),
            Some(document) => StepView::Validate {
                batch: b,
                prescription: b.pairs[b.position].0,
                document,
            },
        }
    }
}

/// What a run does with the outcome of the pair at its position. An error
/// ends the run. So do problems, where the run was asked to fail early: they
/// are its whole report. Otherwise what was found is added to the report,
/// and the run goes on behind the pair.
pub open spec fn resume(b: BatchView, outcome: Result<Seq<Problem>, ErrorView>) -> StepView {
    match outcome {
        Err(e) => StepView::Done(Err(e)),
        Ok(found) => if b.fail_early && found.len() > 0 {
            StepView::Done(Ok(found))
        } else {
            proceed(
                BatchView {
                    pairs: b.pairs,
                    position: b.position + 1,
                    fail_early: b.fail_early,
                    report: b.report + found,
                },
            )
        },
    }
}

/// What a whole run comes to from `step` on, where `outcomes` holds for each
/// pair what its validation gives.
pub open spec fn run(step: StepView, outcomes: Seq<Result<Seq<Problem>, ErrorView>>) -> Result<
    Seq<Problem>,
    ErrorView,
>
    decreases
        (match step {
            StepView::Validate { batch, prescription: _, document: _ } => batch.pairs.len()
                - batch.position,
            StepView::Done(_) => 0,
        }),
        (match step {
            StepView::Validate { batch: _, prescription: _, document: _ } => 1int,
            StepView::Done(_) => 0int,
        }),
{
    match step {
        StepView::Done(outcome) => outcome,
        StepView::Validate { batch, prescription: _, document: _ } => {
            if 0 <= batch.position < batch.pairs.len() && batch.position < outcomes.len() {
                run(resume(batch, outcomes[batch.position]), outcomes)
            } else {
                Ok(batch.report)
            }
        },
    }
}

/// The reports of the pairs from `from` on, one behind the other.
pub open spec fn joined(reports: Seq<Seq<Problem>>, from: int) -> Seq<Problem>
    decreases reports.len() - from,
{
    if from < 0 || from >= reports.len() {
        Seq::empty()
    } else {
        reports[from] + joined(reports, from + 1)
    }
}

/// The first report from `from` on that holds a problem, or an empty one.
pub open spec fn first_failing(reports: Seq<Seq<Problem>>, from: int) -> Seq<Problem>
    decreases reports.len() - from,
{
    if from < 0 || from >= reports.len() {
        Seq::empty()
    } else if reports[from].len() > 0 {
        reports[from]
    } else {
        first_failing(reports, from + 1)
    }
}

/// Every pair names its document, and the validation of every pair gives a
/// report.
pub open spec fn all_validated(
    pairs: Seq<(Seq<char>, Option<Seq<char>>)>,
    outcomes: Seq<Result<Seq<Problem>, ErrorView>>,
    reports: Seq<Seq<Problem>>,
) -> bool {
    &&& outcomes.len() == pairs.len()
    &&& reports.len() == pairs.len()
    &&& forall|k: int| 0 <= k < pairs.len() ==> (#[trigger] pairs[k]).1 is Some
    &&& forall|k: int|
        0 <= k < pairs.len() ==> #[trigger] outcomes[k] == Ok::<Seq<Problem>, ErrorView>(
            reports[k],
        )
}

/// A run that is not asked to fail early reports what its pairs gave, pair
/// after pair. One that is asked to reports what the first pair with a
/// problem gave, and nothing else.
pub proof fn law_batch_report(b: BatchView, outcomes: Seq<Result<Seq<Problem>, ErrorView>>, reports: Seq<
    Seq<Problem>,
>)
    requires
        all_validated(b.pairs, outcomes, reports),
        0 <= b.position <= b.pairs.len(),
        b.fail_early ==> b.report.len() == 0,
    ensures
        run(proceed(b), outcomes) == Ok::<Seq<Problem>, ErrorView>(
            if b.fail_early {
                first_failing(reports, b.position)
            } else {
                b.report + joined(reports, b.position)
            },
        ),
    decreases b.pairs.len() - b.position,
{
    if b.position < b.pairs.len() {
        let found = reports[b.position];
        assert(b.pairs[b.position].1 is Some);
        assert(outcomes[b.position] == Ok::<Seq<Problem>, ErrorView>(found));
        assert(run(proceed(b), outcomes) == run(resume(b, outcomes[b.position]), outcomes));
        if b.fail_early && found.len() > 0 {
        } else {
            let next = BatchView {
                pairs: b.pairs,
                position: b.position + 1,
                fail_early: b.fail_early,
                report: b.report + found,
            };
            law_batch_report(next, outcomes, reports);
            assert((b.report + found) + joined(reports, b.position + 1) =~= b.report + joined(
                reports,
                b.position,
            ));
            if b.fail_early {
                assert(b.report + found =~= Seq::<Problem>::empty());
            }
        }
    } else {
        assert(b.report + joined(reports, b.position) =~= b.report);
        if b.fail_early {
            assert(b.report =~= Seq::<Problem>::empty());
        }
    }
}

impl View for Batch {
    type V = BatchView;

    closed spec fn view(&self) -> BatchView {
        BatchView {
            pairs: pairs_view(self.pairs@),
            position: self.position as int,
            fail_early: self.fail_early,
            report: self.report@,
        }
    }
}

impl View for BatchStep {
    type V = StepView;

    open spec fn view(&self) -> StepView {
        match self {
            BatchStep::Validate { batch, prescription, document } => StepView::Validate {
                batch: batch@,
                prescription: prescription@,
                document: document@,
            },
            BatchStep::Done(outcome) => StepView::Done(outcome_view(*outcome)),
        }
    }
}

impl Batch {
    #[verifier::type_invariant]
    spec fn pending(&self) -> bool {
        self.position < self.pairs@.len()
    }

    /// Begins a run over the pairs of a pharmacy, in their order.
    pub fn begin(pairs: Vec<(String, Option<String>)>, fail_early: bool) -> (r: BatchStep)
        ensures
            r@ == proceed(
                BatchView {
                    pairs: pairs_view(pairs@),
                    position: 0,
                    fail_early,
                    report: Seq::empty(),
                },
            ),
    {
        Batch::at(pairs, 0, fail_early, Vec::new())
    }

    /// Takes the outcome of the pair that the batch stands at.
    pub fn record(self, outcome: Result<Vec<Problem>, HowserError>) -> (r: BatchStep)
        ensures
            r@ == resume(self@, outcome_view(outcome)),
    {
        proof {
            use_type_invariant(&self);
        }
        match outcome {
            Err(e) => BatchStep::Done(Err(e)),
            Ok(found) => {
                if self.fail_early && found.len() > 0 {
                    BatchStep::Done(Ok(found))
                } else {
                    assert(self.position < self.pairs.len());
                    let mut report = self.report;
                    let mut found = found;
                    report.append(&mut found);
                    Batch::at(self.pairs, self.position + 1, self.fail_early, report)
                }
            },
        }
    }

    fn at(pairs: Vec<(String, Option<String>)>, position: usize, fail_early: bool, report: Vec<
        Problem,
    >) -> (r: BatchStep)
        requires
            position <= pairs@.len(),
        ensures
            r@ == proceed(
                BatchView {
                    pairs: pairs_view(pairs@),
                    position: position as int,
                    fail_early,
                    report: report@,
                },
            ),
    {
        if position >= pairs.len() {
            return BatchStep::Done(Ok(report));
        }
        let prescription: String = pairs[position].0.clone();
        match &pairs[position].1 {
            None => {
                let mut message = String::from_str("The document corresponding to ");
                message.append(prescription.as_str());
                message.append(" could not be parsed as a string.");
                BatchStep::Done(Err(HowserError::RuntimeError(message)))
            },
            Some(name) => {
                let document: String = name.clone();
                BatchStep::Validate {
                    batch: Batch { pairs, position, fail_early, report },
                    prescription,
                    document,
                }
            },
        }
    }
}

} // verus!
