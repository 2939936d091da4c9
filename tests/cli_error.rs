use narrate::{CliError, ExitCode};

struct CliCase {
    error: CliError,
    msg: String,
    code: i32,
}

fn cli_cases() -> Vec<CliCase> {
    let path = String::from("path");
    vec![
        CliCase { error: CliError::Config, msg: "invalid configuration".into(), code: exitcode::CONFIG },
        CliCase {
            error: CliError::CreateFile(path.clone()),
            msg: format!("cannot create file: {}", path),
            code: exitcode::CANTCREAT,
        },
        CliCase { error: CliError::InputData, msg: "invalid input data".into(), code: exitcode::DATAERR },
        CliCase {
            error: CliError::InputFileNotFound(path.clone()),
            msg: format!("file not found: {}", path),
            code: exitcode::NOINPUT,
        },
        CliCase {
            error: CliError::NoUser("username".into()),
            msg: "user not found: username".into(),
            code: exitcode::NOUSER,
        },
        CliCase {
            error: CliError::NoHost("hostname".into()),
            msg: "host not found: hostname".into(),
            code: exitcode::NOHOST,
        },
        CliCase {
            error: CliError::OperationPermission("operation".into()),
            msg: "no permission for operation: operation".into(),
            code: exitcode::NOPERM,
        },
        CliCase { error: CliError::OsErr, msg: "operating system error".into(), code: exitcode::OSERR },
        CliCase {
            error: CliError::OsFileNotFound(path.clone()),
            msg: format!("system file not found: {}", path),
            code: exitcode::OSFILE,
        },
        CliCase {
            error: CliError::ReadFile(path.clone()),
            msg: format!("cannot read file: {}", path),
            code: exitcode::IOERR,
        },
        CliCase {
            error: CliError::ResourceNotFound("resource".into()),
            msg: "resource not found: resource".into(),
            code: exitcode::DATAERR,
        },
        CliCase { error: CliError::Protocol, msg: "protocol not possible".into(), code: exitcode::PROTOCOL },
        CliCase { error: CliError::Temporary, msg: "temporary failure".into(), code: exitcode::TEMPFAIL },
        CliCase { error: CliError::Usage, msg: "incorrect usage".into(), code: exitcode::USAGE },
        CliCase {
            error: CliError::WriteFile(path.clone()),
            msg: format!("cannot write to file: {}", path),
            code: exitcode::IOERR,
        },
    ]
}

#[test]
fn outputs() {
    let cases = cli_cases();
    assert_eq!(15, cases.len());
    for case in &cases {
        assert_eq!(case.code, case.error.exit_code(), "exit code of {:?}", case.error);
        assert_eq!(case.msg, case.error.to_string(), "message of {:?}", case.error);
    }
}

#[test]
fn exit_codes_have_sysexits_values() {
    assert_eq!(78, CliError::Config.exit_code());
    assert_eq!(73, CliError::CreateFile("x".into()).exit_code());
    assert_eq!(64, CliError::Usage.exit_code());
    assert_eq!(65, CliError::ResourceNotFound("r".into()).exit_code());
    assert_eq!(74, CliError::WriteFile("w".into()).exit_code());
}

#[test]
fn empty_subject_keeps_prefix() {
    assert_eq!("user not found: ", CliError::NoUser(String::new()).to_string());
}
