use howser::batch::{Batch, BatchStep};
use howser::errors::{HowserError, Location, Problem, ProblemKind, Severity};
use howser::node::Span;
use howser::pharmacy::read_pharmacy;

fn problem(line: u32) -> Problem {
    Problem {
        severity: Severity::Error,
        kind: ProblemKind::ExtraContent,
        location: Location::Document(Span {
            start_line: line,
            start_column: 1,
            end_line: line,
            end_column: 2,
        }),
    }
}

fn pair(prescription: &str, document: &str) -> (String, Option<String>) {
    (prescription.to_string(), Some(document.to_string()))
}

fn expect_validate(step: BatchStep, prescription: &str, document: &str) -> Batch {
    match step {
        BatchStep::Validate { batch, prescription: p, document: d } => {
            assert_eq!(p, prescription);
            assert_eq!(d, document);
            batch
        }
        BatchStep::Done(outcome) => panic!("the run ended early: {:?}", outcome),
    }
}

fn expect_done(step: BatchStep) -> Result<Vec<Problem>, HowserError> {
    match step {
        BatchStep::Done(outcome) => outcome,
        BatchStep::Validate { .. } => panic!("the run goes on"),
    }
}

#[test]
fn a_pharmacy_lists_its_pairs_in_the_order_of_their_keys() {
    let contents = "[Specs]\n\"b.rx\" = \"b.md\"\n\"a.rx\" = \"a.md\"\n\"B.rx\" = \"c.md\"\n";
    assert_eq!(
        read_pharmacy(contents, "pharmacy.toml"),
        Ok(vec![pair("B.rx", "c.md"), pair("a.rx", "a.md"), pair("b.rx", "b.md")])
    );
}

#[test]
fn a_value_that_is_no_string_names_no_document() {
    let contents = "title = \"x\"\n[Specs]\n\"a.rx\" = 3\n\"b.rx\" = \"b.md\"\n\"c.rx\" = [\"c.md\"]\n";
    assert_eq!(
        read_pharmacy(contents, "pharmacy.toml"),
        Ok(vec![("a.rx".to_string(), None), pair("b.rx", "b.md"), ("c.rx".to_string(), None)])
    );
}

#[test]
fn an_empty_table_of_specs_gives_no_pairs() {
    assert_eq!(read_pharmacy("[Specs]\n", "pharmacy.toml"), Ok(Vec::new()));
}

#[test]
fn text_that_is_not_toml_is_a_runtime_error() {
    let contents = "[Specs\n\"a.rx\" = ";
    match read_pharmacy(contents, "pharmacy.toml") {
        Err(HowserError::RuntimeError(message)) => {
            assert!(!message.is_empty());
            assert_ne!(message, contents);
            assert_ne!(message, "pharmacy.toml");
        }
        other => panic!("not a runtime error: {:?}", other),
    }
}

#[test]
fn a_pharmacy_without_specs_is_a_runtime_error() {
    assert_eq!(
        read_pharmacy("[Other]\n\"a.rx\" = \"a.md\"\n", "pharmacy.toml"),
        Err(HowserError::RuntimeError("Error parsing pharmacy file pharmacy.toml.".to_string()))
    );
    assert_eq!(
        read_pharmacy("", "empty.toml"),
        Err(HowserError::RuntimeError("Error parsing pharmacy file empty.toml.".to_string()))
    );
}

#[test]
fn specs_that_are_no_table_are_a_runtime_error() {
    assert_eq!(
        read_pharmacy("Specs = \"a.md\"\n", "p.toml"),
        Err(HowserError::RuntimeError("Error parsing pharmacy file p.toml.".to_string()))
    );
}

#[test]
fn a_batch_without_pairs_is_done_at_once() {
    assert_eq!(expect_done(Batch::begin(Vec::new(), false)), Ok(Vec::new()));
    assert_eq!(expect_done(Batch::begin(Vec::new(), true)), Ok(Vec::new()));
}

#[test]
fn a_batch_joins_the_reports_of_its_pairs() {
    let pairs = vec![pair("a.rx", "a.md"), pair("b.rx", "b.md"), pair("c.rx", "c.md")];
    let batch = expect_validate(Batch::begin(pairs, false), "a.rx", "a.md");
    let batch = expect_validate(batch.record(Ok(vec![problem(1), problem(2)])), "b.rx", "b.md");
    let batch = expect_validate(batch.record(Ok(Vec::new())), "c.rx", "c.md");
    let outcome = expect_done(batch.record(Ok(vec![problem(3)])));
    assert_eq!(outcome, Ok(vec![problem(1), problem(2), problem(3)]));
}

#[test]
fn a_batch_that_fails_early_stops_at_the_first_problem() {
    let pairs = vec![pair("a.rx", "a.md"), pair("b.rx", "b.md"), pair("c.rx", "c.md")];
    let batch = expect_validate(Batch::begin(pairs, true), "a.rx", "a.md");
    let batch = expect_validate(batch.record(Ok(Vec::new())), "b.rx", "b.md");
    let outcome = expect_done(batch.record(Ok(vec![problem(7)])));
    assert_eq!(outcome, Ok(vec![problem(7)]));
}

#[test]
fn a_batch_that_fails_early_goes_on_over_clean_pairs() {
    let pairs = vec![pair("a.rx", "a.md"), pair("b.rx", "b.md")];
    let batch = expect_validate(Batch::begin(pairs, true), "a.rx", "a.md");
    let batch = expect_validate(batch.record(Ok(Vec::new())), "b.rx", "b.md");
    assert_eq!(expect_done(batch.record(Ok(Vec::new()))), Ok(Vec::new()));
}

#[test]
fn an_error_ends_the_batch() {
    let pairs = vec![pair("a.rx", "a.md"), pair("b.rx", "b.md")];
    let batch = expect_validate(Batch::begin(pairs, false), "a.rx", "a.md");
    let outcome = expect_done(batch.record(Err(HowserError::EmptyDocument)));
    assert_eq!(outcome, Err(HowserError::EmptyDocument));
}

#[test]
fn a_pair_without_a_document_ends_the_batch() {
    let pairs = vec![pair("a.rx", "a.md"), ("b.rx".to_string(), None), pair("c.rx", "c.md")];
    let batch = expect_validate(Batch::begin(pairs, false), "a.rx", "a.md");
    let outcome = expect_done(batch.record(Ok(vec![problem(1)])));
    assert_eq!(
        outcome,
        Err(HowserError::RuntimeError(
            "The document corresponding to b.rx could not be parsed as a string.".to_string()
        ))
    );
}

#[test]
fn a_first_pair_without_a_document_ends_the_batch_at_once() {
    let outcome = expect_done(Batch::begin(vec![("a.rx".to_string(), None)], true));
    assert_eq!(
        outcome,
        Err(HowserError::RuntimeError(
            "The document corresponding to a.rx could not be parsed as a string.".to_string()
        ))
    );
}

#[test]
fn a_pharmacy_file_drives_a_batch() {
    let pairs = read_pharmacy("[Specs]\n\"one.rx\" = \"one.md\"\n", "p.toml").unwrap();
    let batch = expect_validate(Batch::begin(pairs, false), "one.rx", "one.md");
    assert_eq!(expect_done(batch.record(Ok(vec![problem(4)]))), Ok(vec![problem(4)]));
}
