use std::fmt::Display;

use narrate::{CliError, Context, Error, ErrorWrap, ExitCode};

#[derive(Debug, PartialEq, Eq)]
struct ErrorStub;

impl Display for ErrorStub {
    fn fmt(&self, f: &mut std::fmt::Formatter<'_>) -> std::fmt::Result {
        f.write_str("ErrorStub")
    }
}

impl std::error::Error for ErrorStub {}

fn error_stub_res() -> Result<(), ErrorStub> {
    Err(ErrorStub)
}

fn ok_res() -> Result<(), ErrorStub> {
    Ok(())
}

fn expect_error<E, F>(expected: E, help: Option<&str>, function: F)
where
    E: Context + Display,
    F: FnOnce() -> Result<(), Error>,
{
    let error = function().expect_err("function should error");
    assert!(error.is::<E>());
    assert_eq!(expected.to_string(), error.to_string());
    assert_eq!(help, error.help());
}

fn expect_cli_error<F>(expected: CliError, function: F)
where
    F: FnOnce() -> Result<(), Error>,
{
    let error = function().expect_err("function should error");
    assert!(error.is::<CliError>());
    assert_eq!(expected.to_string(), error.to_string());
    assert_eq!(None, error.help());
}

#[test]
fn context_str() {
    let context = "context";
    expect_error(context, None, || error_stub_res().wrap(context));
}

#[test]
fn error_type() {
    expect_cli_error(CliError::Protocol, || {
        error_stub_res().wrap(CliError::Protocol)
    });
}

#[test]
fn lazy_error_type() {
    let path = String::from("file_path");
    expect_cli_error(CliError::CreateFile(path.clone()), || {
        error_stub_res().wrap_with(|| CliError::CreateFile(path.clone()))
    });
}

#[test]
fn wrap_with_is_lazy() {
    let mut touched = false;
    let _ = ok_res().wrap_with(|| {
        touched = true;
        ""
    });
    assert!(!touched);

    let _ = error_stub_res().wrap_with(|| {
        touched = true;
        ""
    });
    assert!(touched);
}

#[test]
fn add_help_no_error() {
    let help = "help msg";
    expect_error(ErrorStub, Some(help), || error_stub_res().add_help(help));
}

#[test]
fn add_help_lazy() {
    expect_error(ErrorStub, Some("12"), || {
        error_stub_res().add_help_with(|| format!("1{}", 2))
    });
}

#[test]
fn add_help_with_is_lazy() {
    let mut touched = false;
    let _ = ok_res().add_help_with(|| {
        touched = true;
        ""
    });
    assert!(!touched);

    let _ = error_stub_res().add_help_with(|| {
        touched = true;
        ""
    });
    assert!(touched);
}

#[test]
fn success_passes_through_every_combinator() {
    let ok: Result<u32, ErrorStub> = Ok(7);
    assert_eq!(7, ok.wrap("context").unwrap());
    let ok: Result<u32, ErrorStub> = Ok(8);
    assert_eq!(8, ok.add_help("help").unwrap());
}

#[test]
fn wrap_on_error_result_keeps_help_and_adds_a_link() {
    let mut inner = Error::msg("inner");
    inner.add_help("inner help");
    let res: Result<(), Error> = Err(inner);
    let err = res.wrap("outer").add_help("outer help").unwrap_err();
    assert_eq!("outer", err.to_string());
    assert_eq!(2, err.chain().len());
    assert_eq!(Some("inner help\nouter help"), err.help());
}

#[test]
fn closure_called_once_on_failure() {
    let mut calls = 0;
    let _ = error_stub_res().wrap_with(|| {
        calls += 1;
        "ctx"
    });
    let _ = error_stub_res().add_help_with(|| {
        calls += 1;
        "help"
    });
    assert_eq!(2, calls);
}

#[test]
fn cli_error_result_converts_with_its_code() {
    let res: Result<(), CliError> = Err(CliError::Usage);
    let err = res.add_help("see --help").unwrap_err();
    assert_eq!(exitcode::USAGE, err.exit_code());
    assert_eq!(Some("see --help"), err.help());
    assert_eq!(1, err.chain().len());
}

