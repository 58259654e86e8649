use howser::cli::{plan, Arguments, Command};
use howser::errors::HowserError;

fn arguments(subcommand: Option<&str>) -> Arguments {
    Arguments {
        subcommand: subcommand.map(|s| s.to_string()),
        verbose: false,
        fail_early: false,
        pharmacy_given: false,
        pharmacy: None,
        prescription: None,
        document: None,
        usage: "USAGE: howser <SUBCOMMAND>".to_string(),
    }
}

fn runtime(message: &str) -> HowserError {
    HowserError::RuntimeError(message.to_string())
}

#[test]
fn check_needs_a_prescription() {
    let mut given = arguments(Some("check"));
    given.prescription = Some("some_template".to_string());
    given.verbose = true;
    assert_eq!(
        plan(given),
        Ok(Command::Check { prescription: "some_template".to_string(), verbose: true })
    );
    assert_eq!(
        plan(arguments(Some("check"))),
        Err(runtime("Error parsing prescription filename."))
    );
}

#[test]
fn validate_needs_a_prescription_and_a_document() {
    let mut given = arguments(Some("validate"));
    given.prescription = Some("some_template".to_string());
    given.document = Some("some_document".to_string());
    assert_eq!(
        plan(given),
        Ok(Command::Validate {
            prescription: "some_template".to_string(),
            document: "some_document".to_string(),
            verbose: false,
        })
    );
    let mut given = arguments(Some("validate"));
    given.document = Some("some_document".to_string());
    assert_eq!(plan(given), Err(runtime("Unable to parse the name of the prescription file.")));
    let mut given = arguments(Some("validate"));
    given.prescription = Some("some_template".to_string());
    assert_eq!(plan(given), Err(runtime("Unable to parse the name of the document file.")));
}

#[test]
fn a_pharmacy_goes_before_the_two_names() {
    let mut given = arguments(Some("validate"));
    given.pharmacy_given = true;
    given.pharmacy = Some("pharmacy.toml".to_string());
    given.prescription = Some("some_template".to_string());
    given.document = Some("some_document".to_string());
    given.fail_early = true;
    given.verbose = true;
    assert_eq!(
        plan(given),
        Ok(Command::Pharmacy { file: "pharmacy.toml".to_string(), fail_early: true, verbose: true })
    );
    let mut given = arguments(Some("validate"));
    given.pharmacy_given = true;
    assert_eq!(
        plan(given),
        Err(runtime("Pharmacy filename could not be parsed from the argument string."))
    );
}

#[test]
fn anything_else_gives_the_usage() {
    let usage = HowserError::Usage("USAGE: howser <SUBCOMMAND>".to_string());
    assert_eq!(plan(arguments(None)), Err(HowserError::Usage("USAGE: howser <SUBCOMMAND>".to_string())));
    assert_eq!(plan(arguments(Some("help"))), Err(HowserError::Usage("USAGE: howser <SUBCOMMAND>".to_string())));
    assert_eq!(plan(arguments(Some("Check"))), Err(usage));
}
