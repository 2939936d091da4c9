use std::fmt::Display;

use narrate::{CliError, Error, ErrorWrap, ExitCode};

#[derive(Debug, PartialEq, Eq)]
struct ErrorStub;

impl Display for ErrorStub {
    fn fmt(&self, f: &mut std::fmt::Formatter<'_>) -> std::fmt::Result {
        f.write_str("ErrorStub")
    }
}

impl std::error::Error for ErrorStub {}

fn stub_res() -> Result<(), ErrorStub> {
    Err(ErrorStub)
}

fn cli_config_res() -> Result<(), CliError> {
    Err(CliError::Config)
}

#[test]
fn anyhow_error() {
    let err = anyhow::Error::msg("err msg");
    assert_eq!(exitcode::SOFTWARE, err.exit_code());
}

#[test]
fn narrate_error() {
    let err = Error::msg("err msg");
    assert_eq!(exitcode::SOFTWARE, err.exit_code());
}

#[test]
fn narrate_cli_error() {
    let err = Error::new(CliError::Config);
    assert_eq!(exitcode::CONFIG, err.exit_code());
}

#[test]
fn narrate_wrapped_cli_error() {
    let err = Error::new(CliError::Config).wrap(ErrorStub);
    assert_eq!(exitcode::CONFIG, err.exit_code());
}

#[test]
fn narrate_result_wrapped_cli_error() {
    let err = cli_config_res().wrap(ErrorStub).unwrap_err();
    assert_eq!(exitcode::CONFIG, err.exit_code());
}

#[test]
fn narrate_result_wrapping_cli_error() {
    let err = stub_res().wrap(CliError::Config).unwrap_err();
    assert_eq!(exitcode::CONFIG, err.exit_code());
}

#[test]
fn unrecognized_error_is_seventy() {
    assert_eq!(70, Error::new(ErrorStub).wrap("a").wrap("b").exit_code());
}

#[test]
fn config_code_at_any_depth() {
    let mut err = Error::new(CliError::Config);
    for depth in 0..6 {
        assert_eq!(exitcode::CONFIG, err.exit_code());
        err = err.wrap(format!("layer {}", depth));
    }
    assert_eq!(exitcode::CONFIG, err.exit_code());
}

#[test]
fn outermost_cli_error_wins() {
    let err = Error::new(CliError::Config).wrap(CliError::Usage);
    assert_eq!(exitcode::USAGE, err.exit_code());
}

#[test]
fn cli_inside_generic_inside_cli() {
    let err = Error::new(CliError::ReadFile("in.txt".into()))
        .wrap("while loading")
        .wrap(CliError::Temporary);
    assert_eq!(exitcode::TEMPFAIL, err.exit_code());
}

#[test]
fn create_file_around_permission_failure() {
    let os_error = std::io::Error::new(std::io::ErrorKind::PermissionDenied, "permission denied");
    let res: Result<(), std::io::Error> = Err(os_error);
    let err = res
        .wrap_with(|| CliError::CreateFile("/root/out.txt".into()))
        .unwrap_err();
    assert_eq!(exitcode::CANTCREAT, err.exit_code());
    assert_eq!("cannot create file: /root/out.txt", err.to_string());
    assert_eq!("permission denied", err.root_cause().to_string());
}
