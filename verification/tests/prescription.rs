use howser::authoring::{find_violation, is_sound};
use howser::commands::{check, validate};
use howser::document::Document;
use howser::errors::{HowserError, Location, Problem, ProblemKind, Severity};
use howser::node::{Node, NodeKind, Span};

fn at(line: u32) -> Span {
    Span { start_line: line, start_column: 1, end_line: line, end_column: 80 }
}

fn text(words: &str, line: u32) -> Node {
    Node::new(NodeKind::Text, words.to_string(), Vec::new(), at(line))
}

fn paragraph(words: &str, line: u32) -> Node {
    Node::new(NodeKind::Paragraph, String::new(), vec![text(words, line)], at(line))
}

fn directive(word: &str, children: Vec<Node>, line: u32) -> Node {
    Node::new(NodeKind::BlockAnnotation, word.to_string(), children, at(line))
}

fn document(children: Vec<Node>) -> Node {
    Node::new(NodeKind::Document, String::new(), children, at(1))
}

fn warning(kind: ProblemKind, line: u32) -> Problem {
    Problem { severity: Severity::Warning, kind, location: Location::Prescription(at(line)) }
}

#[test]
fn a_tree_with_content_becomes_a_document() {
    let made = Document::new(document(vec![paragraph("a", 1)]), Some("a.md".to_string()));
    let made = made.unwrap();
    assert_eq!(made.root().kind, NodeKind::Document);
    assert_eq!(made.root().children.len(), 1);
    assert_eq!(made.origin(), &Some("a.md".to_string()));
}

#[test]
fn a_document_may_have_no_origin() {
    let made = Document::new(document(vec![paragraph("a", 1)]), None).unwrap();
    assert_eq!(made.origin(), &None);
}

#[test]
fn an_empty_tree_is_no_document() {
    let made = Document::new(document(Vec::new()), None);
    assert_eq!(made.unwrap_err(), HowserError::EmptyDocument);
}

#[test]
fn a_tree_without_a_document_root_is_invalid() {
    let made = Document::new(paragraph("a", 1), None);
    assert_eq!(made.unwrap_err(), HowserError::InvalidSource);
    let empty = Node::new(NodeKind::Paragraph, String::new(), Vec::new(), at(1));
    assert_eq!(Document::new(empty, None).unwrap_err(), HowserError::InvalidSource);
}

#[test]
fn a_document_without_directives_becomes_a_prescription() {
    let made = Document::new(document(vec![paragraph("a", 1)]), Some("a.rx".to_string())).unwrap();
    let rx = made.into_prescription().unwrap();
    assert_eq!(rx.root().children.len(), 1);
    assert_eq!(rx.origin(), &Some("a.rx".to_string()));
    let back = rx.into_document();
    assert_eq!(back.root().children.len(), 1);
}

#[test]
fn well_placed_directives_are_accepted() {
    let tree = document(vec![
        directive("optional", vec![paragraph("o", 2)], 2),
        directive("repeatable", vec![directive("placeholder", Vec::new(), 3)], 3),
        directive("ignore", Vec::new(), 4),
        directive("substitution", Vec::new(), 5),
    ]);
    assert_eq!(find_violation(&tree), None);
    assert_eq!(check(tree, "a.rx"), Ok(Vec::new()));
}

#[test]
fn check_without_directives_reports_nothing() {
    let tree = document(vec![paragraph("a", 1), paragraph("b", 2)]);
    assert_eq!(check(tree, "a.rx"), Ok(Vec::new()));
}

#[test]
fn check_reports_a_repeatable_that_wraps_nothing() {
    let tree = document(vec![paragraph("a", 1), directive("repeatable", Vec::new(), 2)]);
    let report = check(tree, "a.rx").unwrap();
    assert_eq!(report, vec![warning(ProblemKind::EmptyDirective, 2)]);
    assert_eq!(report.len(), 1);
    assert_eq!(report[0].severity, Severity::Warning);
    assert!(!report[0].is_error());
    assert_eq!(report[0].message(), "directive wraps an empty subtree");
}

#[test]
fn an_optional_that_wraps_nothing_is_a_warning() {
    let tree = document(vec![directive(" optional ", Vec::new(), 7)]);
    let made = Document::new(tree, None).unwrap();
    assert_eq!(
        made.into_prescription().unwrap_err(),
        HowserError::PrescriptionError(warning(ProblemKind::EmptyDirective, 7))
    );
}

#[test]
fn a_directive_that_wraps_two_subtrees_is_a_warning() {
    let tree =
        document(vec![directive("optional", vec![paragraph("a", 3), paragraph("b", 4)], 2)]);
    assert_eq!(check(tree, "a.rx"), Ok(vec![warning(ProblemKind::SplitDirective, 2)]));
}

#[test]
fn a_directive_that_wraps_a_directive_is_a_warning() {
    let inner = directive("repeatable", vec![paragraph("a", 3)], 3);
    let tree = document(vec![directive("optional", vec![inner], 2)]);
    assert_eq!(check(tree, "a.rx"), Ok(vec![warning(ProblemKind::NestedDirective, 2)]));
}

#[test]
fn a_wrapped_directive_of_another_sort_is_accepted() {
    let inner = directive("ignore", Vec::new(), 3);
    let tree = document(vec![directive("optional", vec![inner], 2)]);
    assert_eq!(check(tree, "a.rx"), Ok(Vec::new()));
}

#[test]
fn the_first_violation_in_document_order_is_reported() {
    let deep = Node::new(
        NodeKind::BlockQuote,
        String::new(),
        vec![paragraph("a", 2), directive("repeatable", Vec::new(), 3)],
        at(2),
    );
    let tree = document(vec![deep, directive("optional", Vec::new(), 9)]);
    assert_eq!(find_violation(&tree), Some(warning(ProblemKind::EmptyDirective, 3)));
    assert_eq!(check(tree, "a.rx"), Ok(vec![warning(ProblemKind::EmptyDirective, 3)]));
}

#[test]
fn a_node_is_judged_before_what_it_wraps() {
    let inner = directive("optional", Vec::new(), 3);
    let outer = directive("repeatable", vec![inner, paragraph("a", 4)], 2);
    let tree = document(vec![outer]);
    assert_eq!(check(tree, "a.rx"), Ok(vec![warning(ProblemKind::SplitDirective, 2)]));
}

#[test]
fn violations_below_an_ignore_are_found() {
    let tree =
        document(vec![directive("ignore", vec![directive("optional", Vec::new(), 5)], 4)]);
    assert_eq!(check(tree, "a.rx"), Ok(vec![warning(ProblemKind::EmptyDirective, 5)]));
}

#[test]
fn a_leaf_with_children_is_not_sound() {
    let broken = Node::new(NodeKind::Text, "a".to_string(), vec![text("b", 1)], at(1));
    let tree = document(vec![Node::new(NodeKind::Paragraph, String::new(), vec![broken], at(1))]);
    assert!(!is_sound(&tree));
    let made = Document::new(tree, None).unwrap();
    assert_eq!(made.into_prescription().unwrap_err(), HowserError::InvalidSource);
}

#[test]
fn a_document_below_the_root_is_not_sound() {
    let tree = document(vec![document(vec![paragraph("a", 1)])]);
    assert!(!is_sound(&tree));
    assert_eq!(check(tree, "a.rx"), Err(HowserError::InvalidSource));
}

#[test]
fn a_sound_tree_is_sound() {
    let tree = document(vec![paragraph("a", 1), directive("optional", vec![paragraph("b", 2)], 2)]);
    assert!(is_sound(&tree));
}

#[test]
fn corruption_goes_before_a_misplaced_directive() {
    let broken = Node::new(NodeKind::Code, "a".to_string(), vec![text("b", 1)], at(1));
    let tree = document(vec![directive("optional", Vec::new(), 1), broken]);
    assert_eq!(check(tree, "a.rx"), Err(HowserError::InvalidSource));
}

#[test]
fn check_fails_on_what_is_no_document() {
    assert_eq!(check(document(Vec::new()), "a.rx"), Err(HowserError::EmptyDocument));
    assert_eq!(check(paragraph("a", 1), "a.rx"), Err(HowserError::InvalidSource));
}

#[test]
fn validate_stops_at_a_misplaced_directive() {
    let rx = document(vec![directive("repeatable", Vec::new(), 2)]);
    let doc = document(vec![paragraph("a", 1)]);
    assert_eq!(
        validate(rx, "a.rx", doc, "a.md"),
        Err(HowserError::PrescriptionError(warning(ProblemKind::EmptyDirective, 2)))
    );
}

#[test]
fn validate_fails_on_an_empty_document() {
    let rx = document(vec![paragraph("a", 1)]);
    assert_eq!(validate(rx, "a.rx", document(Vec::new()), "a.md"), Err(HowserError::EmptyDocument));
    let doc = document(vec![paragraph("a", 1)]);
    assert_eq!(validate(document(Vec::new()), "a.rx", doc, "a.md"), Err(HowserError::EmptyDocument));
}

#[test]
fn validate_fails_on_an_invalid_source() {
    let rx = document(vec![paragraph("a", 1)]);
    assert_eq!(validate(rx, "a.rx", paragraph("a", 1), "a.md"), Err(HowserError::InvalidSource));
}

#[test]
fn only_a_warning_is_not_fatal() {
    assert!(HowserError::EmptyDocument.is_fatal());
    assert!(HowserError::InvalidSource.is_fatal());
    assert!(HowserError::RuntimeError("x".to_string()).is_fatal());
    assert!(HowserError::Usage("x".to_string()).is_fatal());
    assert!(!HowserError::PrescriptionError(warning(ProblemKind::EmptyDirective, 1)).is_fatal());
}
