use howser::errors::{Location, Problem, ProblemKind, Severity};
use howser::node::Span;
use howser::reporters::{decimal, make_cli_report, verbose_mode, CLIOption};

fn place(line: u32, column: u32) -> Span {
    Span { start_line: line, start_column: column, end_line: line + 1, end_column: column + 2 }
}

fn problems() -> Vec<Problem> {
    vec![
        Problem {
            severity: Severity::Error,
            kind: ProblemKind::MissingContent,
            location: Location::Both { prescription: place(3, 1), document: place(10, 4) },
        },
        Problem {
            severity: Severity::Error,
            kind: ProblemKind::ExtraContent,
            location: Location::Document(place(120, 7)),
        },
        Problem {
            severity: Severity::Warning,
            kind: ProblemKind::EmptyDirective,
            location: Location::Prescription(place(0, 4294967293)),
        },
    ]
}

#[test]
fn numbers_are_written_in_decimal() {
    assert_eq!(decimal(0), "0");
    assert_eq!(decimal(7), "7");
    assert_eq!(decimal(10), "10");
    assert_eq!(decimal(909), "909");
    assert_eq!(decimal(u32::MAX), "4294967295");
    let mut n: u32 = 0;
    while n < 2000 {
        assert_eq!(decimal(n), n.to_string());
        n += 1;
    }
}

#[test]
fn a_terse_report_has_one_line_for_each_problem() {
    let text = make_cli_report(&problems(), &vec![CLIOption::VerboseMode(false)]);
    assert_eq!(
        text,
        "Error: required content missing (prescription 3:1, document 10:4)\n\
         Error: unexpected extra content (document 120:7)\n\
         Warning: directive wraps an empty subtree (prescription 0:4294967293)\n"
    );
    assert_eq!(text.lines().count(), 3);
}

#[test]
fn a_verbose_report_has_several_lines_for_each_problem() {
    let text = make_cli_report(&problems(), &vec![CLIOption::VerboseMode(true)]);
    assert_eq!(
        text,
        "Error: required content missing\n\
         \x20   in the prescription: line 3, column 1 to line 4, column 3\n\
         \x20   in the document: line 10, column 4 to line 11, column 6\n\
         Error: unexpected extra content\n\
         \x20   in the document: line 120, column 7 to line 121, column 9\n\
         Warning: directive wraps an empty subtree\n\
         \x20   in the prescription: line 0, column 4294967293 to line 1, column 4294967295\n"
    );
}

#[test]
fn an_empty_report_is_empty() {
    assert_eq!(make_cli_report(&Vec::new(), &vec![CLIOption::VerboseMode(true)]), "");
    assert_eq!(make_cli_report(&Vec::new(), &Vec::new()), "");
}

#[test]
fn the_last_option_decides_the_form() {
    assert!(!verbose_mode(&Vec::new()));
    assert!(verbose_mode(&vec![CLIOption::VerboseMode(true)]));
    assert!(!verbose_mode(&vec![CLIOption::VerboseMode(true), CLIOption::VerboseMode(false)]));
    let list = problems();
    assert_eq!(
        make_cli_report(&list, &Vec::new()),
        make_cli_report(&list, &vec![CLIOption::VerboseMode(false)])
    );
}
