//! What to do for a command line, once it has been taken apart.

use crate::document::name_text;
use crate::errors::{ErrorView, HowserError};
use crate::text::same_text;
use vstd::prelude::*;

verus! {

/// What the command line holds: the name of the subcommand, the flags and
/// values given to it, and the text that explains the usage.
#[derive(Debug)]
pub struct Arguments {
    pub subcommand: Option<String>,
    pub verbose: bool,
    pub fail_early: bool,
    pub pharmacy_given: bool,
    pub pharmacy: Option<String>,
    pub prescription: Option<String>,
    pub document: Option<String>,
    pub usage: String,
}

/// The operation that a command line asks for.
#[derive(Debug, PartialEq, Eq)]
pub enum Command {
    /// Check that a file can serve as a prescription.
    Check { prescription: String, verbose: bool },
    /// Validate a document against a prescription.
    Validate { prescription: String, document: String, verbose: bool },
    /// Validate every pair that a pharmacy file names.
    Pharmacy { file: String, fail_early: bool, verbose: bool },
}

/// The model of a [`Command`].
pub ghost enum CommandView {
    Check { prescription: Seq<char>, verbose: bool },
    Validate { prescription: Seq<char>, document: Seq<char>, verbose: bool },
    Pharmacy { file: Seq<char>, fail_early: bool, verbose: bool },
}

impl View for Command {
    type V = CommandView;

    open spec fn view(&self) -> CommandView {
        match self {
            Command::Check { prescription, verbose } => CommandView::Check {
                prescription: prescription@,
                verbose: *verbose,
            },
            Command::Validate { prescription, document, verbose } => CommandView::Validate {
                prescription: prescription@,
                document: document@,
                verbose: *verbose,
            },
            Command::Pharmacy { file, fail_early, verbose } => CommandView::Pharmacy {
                file: file@,
                fail_early: *fail_early,
                verbose: *verbose,
            },
        }
    }
}

/// The operation for the subcommand `check`: it needs the name of the
/// prescription.
pub open spec fn check_plan(prescription: Option<Seq<char>>, verbose: bool) -> Result<
    CommandView,
    ErrorView,
> {
    match prescription {
        Some(name) => Ok(CommandView::Check { prescription: name, verbose }),
        None => Err(ErrorView::RuntimeError("Error parsing prescription filename."@)),
    }
}

/// The operation for the subcommand `validate`. With a pharmacy it needs the
/// name of the pharmacy file, without one the names of the prescription and
/// of the document.
pub open spec fn validate_plan(
    pharmacy_given: bool,
    pharmacy: Option<Seq<char>>,
    prescription: Option<Seq<char>>,
    document: Option<Seq<char>>,
    fail_early: bool,
    verbose: bool,
) -> Result<CommandView, ErrorView> {
    if pharmacy_given {
        match pharmacy {
            Some(file) => Ok(CommandView::Pharmacy { file, fail_early, verbose }),
            None => Err(
                ErrorView::RuntimeError(
                    "Pharmacy filename could not be parsed from the argument string."@,
                ),
            ),
        }
    } else {
        match prescription {
            None => Err(
                ErrorView::RuntimeError("Unable to parse the name of the prescription file."@),
            ),
            Some(rx) => match document {
                None => Err(
                    ErrorView::RuntimeError("Unable to parse the name of the document file."@),
                ),
                Some(doc) => Ok(
                    CommandView::Validate { prescription: rx, document: doc, verbose },
                ),
            },
        }
    }
}

/// The operation that the arguments ask for. Without one of the two
/// subcommands the outcome is the usage text, as an error.
pub open spec fn plan_of(a: Arguments) -> Result<CommandView, ErrorView> {
    match a.subcommand {
        Some(name) => if name@ == "check"@ {
            check_plan(name_text(a.prescription), a.verbose)
        } else if name@ == "validate"@ {
            validate_plan(
                a.pharmacy_given,
                name_text(a.pharmacy),
                name_text(a.prescription),
                name_text(a.document),
                a.fail_early,
                a.verbose,
            )
        } else {
            Err(ErrorView::Usage(a.usage@))
        },
        None => Err(ErrorView::Usage(a.usage@)),
    }
}

/// The model of the outcome of `plan`.
pub open spec fn plan_view(r: Result<Command, HowserError>) -> Result<CommandView, ErrorView> {
    match r {
        Ok(command) => Ok(command@),
        Err(e) => Err(e@),
    }
}

/// Decides what to do for a command line.
pub fn plan(arguments: Arguments) -> (r: Result<Command, HowserError>)
    ensures
        plan_view(r) == plan_of(arguments),
{
    let verbose = arguments.verbose;
    let name = match arguments.subcommand {
        Some(name) => name,
        None => {
            return Err(HowserError::Usage(arguments.usage));
        },
    };
    if same_text(name.as_str(), "check") {
        match arguments.prescription {
            Some(prescription) => Ok(Command::Check { prescription, verbose }),
            None => Err(
                HowserError::RuntimeError("Error parsing prescription filename.".to_owned()),
            ),
        }
    } else if same_text(name.as_str(), "validate") {
        if arguments.pharmacy_given {
            match arguments.pharmacy {
                Some(file) => Ok(
                    Command::Pharmacy { file, fail_early: arguments.fail_early, verbose },
                ),
                None => Err(
                    HowserError::RuntimeError(
                        "Pharmacy filename could not be parsed from the argument string.".to_owned(),
                    ),
                ),
            }
        } else {
            match arguments.prescription {
                None => Err(
                    HowserError::RuntimeError(
                        "Unable to parse the name of the prescription file.".to_owned(),
                    ),
                ),
                Some(prescription) => match arguments.document {
                    None => Err(
                        HowserError::RuntimeError(
                            "Unable to parse the name of the document file.".to_owned(),
                        ),
                    ),
                    Some(document) => Ok(Command::Validate { prescription, document, verbose }),
                },
            }
        }
    } else {
        Err(HowserError::Usage(arguments.usage))
    }
}

} // verus!
