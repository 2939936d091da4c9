use std::fmt::Display;

use narrate::{Cause, CliError, Context, Error};

#[derive(Debug, PartialEq, Eq)]
struct ErrorStub;

impl Display for ErrorStub {
    fn fmt(&self, f: &mut std::fmt::Formatter<'_>) -> std::fmt::Result {
        f.write_str("ErrorStub")
    }
}

impl std::error::Error for ErrorStub {}

fn check_error<E: Context + Display>(expected: E, help: Option<&str>, error: Error) {
    assert!(error.is::<E>());
    assert_eq!(expected.to_string(), error.to_string());
    assert_eq!(help, error.help());
}

#[test]
fn new() {
    let error = Error::new(ErrorStub);
    check_error(ErrorStub, None, error)
}

#[test]
fn from_anyhow() {
    let msg = "anyhow error";
    let any_err = anyhow::Error::msg(msg);
    let error = Error::from_anyhow(any_err);
    check_error(msg, None, error)
}

#[test]
fn wrap_transparent_display() {
    let error = Error::new(ErrorStub).wrap(CliError::Temporary);
    assert!(error.is::<CliError>());
    assert_eq!(CliError::Temporary.to_string(), error.to_string());
    assert_eq!(None, error.help());
}

#[test]
fn is_original() {
    let error = Error::new(ErrorStub);
    assert!(error.is::<ErrorStub>());
}

#[test]
fn is_not_original() {
    let error = Error::new(ErrorStub);
    assert!(!error.is::<CliError>());
}

#[test]
fn downcast_to_original() {
    let error = Error::new(ErrorStub);
    if let Ok(original) = error.downcast::<ErrorStub>() {
        assert_eq!(ErrorStub, original);
    }
}

#[test]
fn downcast_ref_to_original() {
    let error = Error::new(ErrorStub);
    if let Some(original) = error.downcast_ref::<ErrorStub>() {
        assert_eq!(&ErrorStub, original);
    }
}

#[test]
fn downcast_mut_to_original() {
    let mut error = Error::new(ErrorStub);
    if let Some(original) = error.downcast_mut::<ErrorStub>() {
        assert_eq!(&ErrorStub, original);
    }
}

#[test]
fn wrapped_error_can_use_is() {
    let error = Error::new(ErrorStub).wrap(CliError::Temporary);
    assert!(error.is::<CliError>());
    assert!(error.is::<ErrorStub>());
}

#[test]
fn wrapped_error_can_downcast() {
    let error = Error::new(ErrorStub).wrap(CliError::Temporary);
    if let Ok(original) = error.downcast::<ErrorStub>() {
        assert_eq!(ErrorStub, original);
    }
}

#[test]
fn wrapped_error_chain_downcast() {
    let error = Error::new(ErrorStub).wrap("context");
    let mut chain = error.chain();
    let mut found = false;
    while let Some(cause) = chain.next() {
        found = found || cause.is::<ErrorStub>();
    }
    assert!(found);
}

#[test]
fn add_help_once() {
    let help = "help message";
    let mut error = Error::new(ErrorStub);
    error.add_help(help);
    check_error(ErrorStub, Some(help), error);
}

#[test]
fn add_help_twice() {
    let help_1 = "first help";
    let help_2 = "second help";
    let mut error = Error::new(ErrorStub);
    error.add_help(help_1);
    error.add_help(help_2);
    let combined = format!("{}\n{}", help_1, help_2);
    check_error(ErrorStub, Some(&combined), error);
}

#[test]
fn add_help_with() {
    let msg = "help";
    let mut error = Error::new(ErrorStub);
    error.add_help_with(|| msg);
    check_error(ErrorStub, Some(msg), error);
}

#[test]
fn add_help_with_twice() {
    let help_1 = "first help";
    let help_2 = "second help";
    let mut error = Error::new(ErrorStub);
    error.add_help_with(|| help_1);
    error.add_help_with(|| help_2);
    let combined = format!("{}\n{}", help_1, help_2);
    check_error(ErrorStub, Some(&combined), error);
}

#[test]
fn add_help_three_times_joins_in_order() {
    let mut error = Error::msg("e");
    error.add_help("one");
    error.add_help_with(|| String::from("two"));
    error.add_help("three");
    assert_eq!(Some("one\ntwo\nthree"), error.help());
}

#[test]
fn wrapping_keeps_help() {
    let mut error = Error::msg("inner");
    error.add_help("the help");
    let error = error.wrap("outer");
    assert_eq!(Some("the help"), error.help());
    assert_eq!("outer", error.to_string());
}

#[test]
fn set_help_replaces() {
    let mut error = Error::msg("e");
    error.add_help("old");
    error.set_help("new");
    assert_eq!(Some("new"), error.help());
    error.set_help_owned(String::from("owned"));
    assert_eq!(Some("owned"), error.help());
}

#[test]
fn failed_downcast_returns_error_unchanged() {
    let mut error = Error::new(ErrorStub).wrap("outer context");
    error.add_help("some help");
    let before = error.to_string();
    let error = error.downcast::<CliError>().unwrap_err();
    assert_eq!(before, error.to_string());
    assert_eq!(Some("some help"), error.help());
    assert_eq!(2, error.chain().len());
    let error = error.downcast::<ErrorStub>().unwrap_err();
    assert_eq!("outer context", error.to_string());
    assert_eq!(Some("some help"), error.help());
}

#[test]
fn downcast_takes_outermost_link() {
    let error = Error::new(ErrorStub).wrap(CliError::Usage);
    assert_eq!(CliError::Usage, error.downcast::<CliError>().unwrap());
    let error = Error::new(ErrorStub).wrap("ctx");
    assert_eq!("ctx", error.downcast::<&str>().unwrap());
}

#[test]
fn downcast_ref_finds_outermost_cli_error() {
    let error = Error::new(CliError::Config).wrap("middle").wrap(CliError::Protocol);
    assert_eq!(Some(&CliError::Protocol), error.downcast_ref::<CliError>());
    assert!(error.downcast_ref::<ErrorStub>().is_none());
}

#[test]
fn downcast_mut_changes_in_place() {
    let mut error = Error::new(CliError::NoUser("alice".into())).wrap("context");
    if let Some(CliError::NoUser(name)) = error.downcast_mut::<CliError>() {
        name.push_str("-x");
    }
    assert_eq!(Some(&CliError::NoUser("alice-x".into())), error.downcast_ref::<CliError>());
    assert!(error.downcast_mut::<ErrorStub>().is_none());
    assert_eq!(2, error.chain().len());
}

#[test]
fn root_cause_is_innermost_link() {
    let error = Error::new(ErrorStub).wrap("a").wrap("b");
    let root = error.root_cause();
    assert_eq!("ErrorStub", root.to_string());
    assert!(root.is::<ErrorStub>());
    assert!(matches!(root, Cause::Other(_)));
}

#[test]
fn cli_error_link_is_cli_cause() {
    let error = Error::new(CliError::OsErr);
    assert!(matches!(error.root_cause(), Cause::Cli(CliError::OsErr)));
    assert_eq!("operating system error", error.to_string());
}

#[test]
fn messages_lists_every_link() {
    let error = Error::msg("root").wrap(CliError::Temporary).wrap("top");
    assert_eq!(
        vec!["top".to_string(), "temporary failure".to_string(), "root".to_string()],
        error.messages()
    );
}

fn fails_with_stub() -> Result<(), Error> {
    Err(ErrorStub)?;
    Ok(())
}

#[test]
fn question_mark_converts_into_error() {
    let error = fails_with_stub().unwrap_err();
    assert!(error.is::<ErrorStub>());
    assert_eq!(1, error.chain().len());
    let from_cli = Error::from(CliError::Protocol);
    assert!(from_cli.is::<CliError>());
}

#[derive(Debug)]
struct Outer(ErrorStub);

impl Display for Outer {
    fn fmt(&self, f: &mut std::fmt::Formatter<'_>) -> std::fmt::Result {
        f.write_str("Outer")
    }
}

impl std::error::Error for Outer {
    fn source(&self) -> Option<&(dyn std::error::Error + 'static)> {
        Some(&self.0)
    }
}

#[test]
fn a_cause_with_sources_is_one_link() {
    let error = Error::new(Outer(ErrorStub));
    assert_eq!(1, error.chain().len());
    assert_eq!("Outer", error.root_cause().to_string());
    let wrapped = error.wrap("context");
    assert_eq!(2, wrapped.chain().len());
    assert_eq!("Outer", wrapped.root_cause().to_string());
}

#[test]
fn anyhow_context_layers_are_one_link() {
    let any = anyhow::Error::msg("inner").context("middle").context("outer");
    let error = Error::from_anyhow(any);
    assert_eq!(1, error.chain().len());
    assert_eq!("outer", error.to_string());
}
