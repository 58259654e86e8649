//! The report of a run as text: every problem with its severity, its message
//! and its place, on one line each or, in verbose mode, on several.

use crate::errors::{Location, Problem, Severity};
use crate::node::Span;
use vstd::prelude::*;
use vstd::string::StringExecFns;

verus! {

/// What the caller asks of a report.
#[derive(Clone, Copy, Debug, PartialEq, Eq, Structural)]
pub enum CLIOption {
    /// Whether each problem is spread over several lines.
    VerboseMode(bool),
}

/// Whether the options ask for the verbose form: the last one that speaks of
/// it decides, and without one the report is terse.
pub open spec fn wants_verbose(options: Seq<CLIOption>) -> bool
    decreases options.len(),
{
    if options.len() == 0 {
        false
    } else {
        match options.last() {
            CLIOption::VerboseMode(on) => on,
        }
    }
}

/// The character of a digit.
pub open spec fn digit_text(d: int) -> Seq<char> {
    if d == 0 {
        "0"@
    } else if d == 1 {
        "1"@
    } else if d == 2 {
        "2"@
    } else if d == 3 {
        "3"@
    } else if d == 4 {
        "4"@
    } else if d == 5 {
        "5"@
    } else if d == 6 {
        "6"@
    } else if d == 7 {
        "7"@
    } else if d == 8 {
        "8"@
    } else {
        "9"@
    }
}

/// A number in decimal digits, without leading zeros.
pub open spec fn decimal_text(n: nat) -> Seq<char>
    decreases n,
{
    if n < 10 {
        digit_text(n as int)
    } else {
        decimal_text(n / 10) + digit_text((n % 10) as int)
    }
}

pub open spec fn severity_text(severity: Severity) -> Seq<char> {
    match severity {
        Severity::Warning => "Warning"@,
        Severity::Error => "Error"@,
    }
}

/// Where a span begins: the line, a colon, the column.
pub open spec fn place_text(span: Span) -> Seq<char> {
    decimal_text(span.start_line as nat) + ":"@ + decimal_text(span.start_column as nat)
}

/// The places of a problem on one line.
pub open spec fn location_text(location: Location) -> Seq<char> {
    match location {
        Location::Prescription(p) => "prescription "@ + place_text(p),
        Location::Document(d) => "document "@ + place_text(d),
        Location::Both { prescription, document } => "prescription "@ + place_text(prescription)
            + ", document "@ + place_text(document),
    }
}

/// A problem on one line: severity, message, and the places in brackets.
pub open spec fn terse_text(problem: Problem) -> Seq<char> {
    severity_text(problem.severity) + ": "@ + problem.kind.message_text() + " ("@ + location_text(
        problem.location,
    ) + ")\n"@
}

/// One side of a problem on a line of its own: from where to where.
pub open spec fn side_text(label: Seq<char>, span: Span) -> Seq<char> {
    label + decimal_text(span.start_line as nat) + ", column "@ + decimal_text(
        span.start_column as nat,
    ) + " to line "@ + decimal_text(span.end_line as nat) + ", column "@ + decimal_text(
        span.end_column as nat,
    ) + "\n"@
}

/// A problem on several lines: severity and message, then a line for each
/// of its places.
pub open spec fn verbose_text(problem: Problem) -> Seq<char> {
    let head = severity_text(problem.severity) + ": "@ + problem.kind.message_text() + "\n"@;
    let with_prescription = match problem.location.prescription_side() {
        Some(span) => head + side_text("    in the prescription: line "@, span),
        None => head,
    };
    match problem.location.document_side() {
        Some(span) => with_prescription + side_text("    in the document: line "@, span),
        None => with_prescription,
    }
}

/// The text of a whole report: the problems one after the other, each in
/// the form asked for.
pub open spec fn report_text(problems: Seq<Problem>, verbose: bool) -> Seq<char>
    decreases problems.len(),
{
    if problems.len() == 0 {
        Seq::empty()
    } else if verbose {
        report_text(problems.drop_last(), verbose) + verbose_text(problems.last())
    } else {
        report_text(problems.drop_last(), verbose) + terse_text(problems.last())
    }
}

fn digit(d: u32) -> (r: &'static str)
    requires
        d < 10,
    ensures
        r@ == digit_text(d as int),
{
    match d {
        0 => "0",
        1 => "1",
        2 => "2",
        3 => "3",
        4 => "4",
        5 => "5",
        6 => "6",
        7 => "7",
        8 => "8",
        _ => "9",
    }
}

/// Writes a number in decimal digits.
pub fn decimal(n: u32) -> (r: String)
    ensures
        r@ == decimal_text(n as nat),
    decreases n,
{
    if n < 10 {
        String::from_str(digit(n))
    } else {
        let mut text = decimal(n / 10);
        text.append(digit(n % 10));
        text
    }
}

fn append_place(text: &mut String, span: &Span)
    ensures
        final(text)@ == old(text)@ + place_text(*span),
{
    let ghost before = text@;
    let line = decimal(span.start_line);
    let column = decimal(span.start_column);
    text.append(line.as_str());
    text.append(":");
    text.append(column.as_str());
    assert(text@ =~= before + place_text(*span));
}

fn append_side(text: &mut String, label: &str, span: &Span)
    ensures
        final(text)@ == old(text)@ + side_text(label@, *span),
{
    let ghost before = text@;
    text.append(label);
    text.append(decimal(span.start_line).as_str());
    text.append(", column ");
    text.append(decimal(span.start_column).as_str());
    text.append(" to line ");
    text.append(decimal(span.end_line).as_str());
    text.append(", column ");
    text.append(decimal(span.end_column).as_str());
    text.append("\n");
    assert(text@ =~= before + side_text(label@, *span));
}

fn append_head(text: &mut String, problem: &Problem)
    ensures
        final(text)@ == old(text)@ + severity_text(problem.severity) + ": "@
            + problem.kind.message_text(),
{
    match problem.severity {
        Severity::Warning => text.append("Warning"),
        Severity::Error => text.append("Error"),
    }
    text.append(": ");
    text.append(problem.message().as_str());
}

fn append_location(text: &mut String, location: &Location)
    ensures
        final(text)@ == old(text)@ + location_text(*location),
{
    let ghost before = text@;
    match location {
        Location::Prescription(p) => {
            text.append("prescription ");
            append_place(text, p);
            assert(text@ =~= before + ("prescription "@ + place_text(*p)));
        },
        Location::Document(d) => {
            text.append("document ");
            append_place(text, d);
            assert(text@ =~= before + ("document "@ + place_text(*d)));
        },
        Location::Both { prescription, document } => {
            text.append("prescription ");
            append_place(text, prescription);
            text.append(", document ");
            append_place(text, document);
            assert(text@ =~= before + ("prescription "@ + place_text(*prescription)
                + ", document "@ + place_text(*document)));
        },
    }
}

fn append_terse(text: &mut String, problem: &Problem)
    ensures
        final(text)@ == old(text)@ + terse_text(*problem),
{
    let ghost before = text@;
    append_head(text, problem);
    let ghost head = severity_text(problem.severity) + ": "@ + problem.kind.message_text();
    assert(text@ =~= before + head);
    text.append(" (");
    append_location(text, &problem.location);
    text.append(")\n");
    assert(text@ =~= before + (head + " ("@ + location_text(problem.location) + ")\n"@));
}

fn append_verbose(text: &mut String, problem: &Problem)
    ensures
        final(text)@ == old(text)@ + verbose_text(*problem),
{
    let ghost before = text@;
    append_head(text, problem);
    text.append("\n");
    match problem.location.prescription_span() {
        Some(span) => append_side(text, "    in the prescription: line ", &span),
        None => {},
    }
    match problem.location.document_span() {
        Some(span) => append_side(text, "    in the document: line ", &span),
        None => {},
    }
    assert(text@ =~= before + verbose_text(*problem));
}

/// Whether the options ask for the verbose form.
pub fn verbose_mode(options: &Vec<CLIOption>) -> (r: bool)
    ensures
        r == wants_verbose(options@),
{
    if options.len() == 0 {
        false
    } else {
        match options[options.len() - 1] {
            CLIOption::VerboseMode(on) => on,
        }
    }
}

/// Writes the report of a run.
pub fn make_cli_report(issues: &Vec<Problem>, options: &Vec<CLIOption>) -> (r: String)
    ensures
        r@ == report_text(issues@, wants_verbose(options@)),
{
    let verbose = verbose_mode(options);
    let mut text = String::new();
    let mut n: usize = 0;
    while n < issues.len()
        invariant
            n <= issues.len(),
            verbose == wants_verbose(options@),
            text@ == report_text(issues@.subrange(0, n as int), verbose),
        decreases issues.len() - n,
    {
        proof {
            assert(issues@.subrange(0, n + 1).drop_last() =~= issues@.subrange(0, n as int));
        }
        if verbose {
            append_verbose(&mut text, &issues[n]);
        } else {
            append_terse(&mut text, &issues[n]);
        }
        n = n + 1;
    }
    proof {
        assert(issues@.subrange(0, n as int) =~= issues@);
    }
    text
}

} // verus!
