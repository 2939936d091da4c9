use vstd::prelude::*;
use vstd::string::StringExecFns;

verus! {

/// Standard command line application error.
#[derive(Debug, PartialEq, Eq, Hash)]
#[non_exhaustive]
pub enum CliError {
    /// Invalid configuration
    Config,
    /// Cannot create file
    CreateFile(String),
    /// Invalid input data
    InputData,
    /// Supplied file not found
    InputFileNotFound(String),
    /// User not found
    NoUser(String),
    /// Host not found
    NoHost(String),
    /// No permission to perform operation
    OperationPermission(String),
    /// Operating system error
    OsErr,
    /// System file not found
    OsFileNotFound(String),
    /// Cannot read file
    ReadFile(String),
    /// Resource not found
    ResourceNotFound(String),
    /// Protocol not possible
    Protocol,
    /// Temporary/non fatal error
    Temporary,
    /// Incorrect usage
    Usage,
    /// Cannot write to file
    WriteFile(String),
}

/// The exit code of an error that no `CliError` classifies (sysexits `SOFTWARE`).
pub open spec fn software_code() -> i32 {
    70
}

impl CliError {
    /// The sysexits code that classifies this error.
    pub open spec fn code(&self) -> i32 {
        match self {
            CliError::Config => 78,  // CONFIG
            CliError::CreateFile(_) => 73,  // CANTCREAT
            CliError::InputData => 65,  // DATAERR
            CliError::ResourceNotFound(_) => 65,  // DATAERR
            CliError::InputFileNotFound(_) => 66,  // NOINPUT
            CliError::NoUser(_) => 67,  // NOUSER
            CliError::NoHost(_) => 68,  // NOHOST
            CliError::OperationPermission(_) => 77,  // NOPERM
            CliError::OsErr => 71,  // OSERR
            CliError::OsFileNotFound(_) => 72,  // OSFILE
            CliError::ReadFile(_) => 74,  // IOERR
            CliError::WriteFile(_) => 74,  // IOERR
            CliError::Protocol => 76,  // PROTOCOL
            CliError::Temporary => 75,  // TEMPFAIL
            CliError::Usage => 64,  // USAGE
        }
    }

    /// The text this error displays.
    pub open spec fn text(&self) -> Seq<char> {
        match self {
            CliError::Config => "invalid configuration"@,
            CliError::CreateFile(p) => "cannot create file: "@ + p@,
            CliError::InputData => "invalid input data"@,
            CliError::InputFileNotFound(p) => "file not found: "@ + p@,
            CliError::NoUser(n) => "user not found: "@ + n@,
            CliError::NoHost(n) => "host not found: "@ + n@,
            CliError::OperationPermission(op) => "no permission for operation: "@ + op@,
            CliError::OsErr => "operating system error"@,
            CliError::OsFileNotFound(p) => "system file not found: "@ + p@,
            CliError::ReadFile(p) => "cannot read file: "@ + p@,
            CliError::ResourceNotFound(n) => "resource not found: "@ + n@,
            CliError::Protocol => "protocol not possible"@,
            CliError::Temporary => "temporary failure"@,
            CliError::Usage => "incorrect usage"@,
            CliError::WriteFile(p) => "cannot write to file: "@ + p@,
        }
    }

    /// Renders the error's message.
    pub fn to_string(&self) -> (r: String)
        ensures
            r@ == self.text(),
    {
        match self {
            CliError::Config => String::from_str("invalid configuration"),
            CliError::CreateFile(p) => with_subject("cannot create file: ", p),
            CliError::InputData => String::from_str("invalid input data"),
            CliError::InputFileNotFound(p) => with_subject("file not found: ", p),
            CliError::NoUser(n) => with_subject("user not found: ", n),
            CliError::NoHost(n) => with_subject("host not found: ", n),
            CliError::OperationPermission(op) => with_subject("no permission for operation: ", op),
            CliError::OsErr => String::from_str("operating system error"),
            CliError::OsFileNotFound(p) => with_subject("system file not found: ", p),
            CliError::ReadFile(p) => with_subject("cannot read file: ", p),
            CliError::ResourceNotFound(n) => with_subject("resource not found: ", n),
            CliError::Protocol => String::from_str("protocol not possible"),
            CliError::Temporary => String::from_str("temporary failure"),
            CliError::Usage => String::from_str("incorrect usage"),
            CliError::WriteFile(p) => with_subject("cannot write to file: ", p),
        }
    }
}

fn with_subject(prefix: &str, subject: &String) -> (r: String)
    ensures
        r@ == prefix@ + subject@,
{
    let mut s = String::from_str(prefix);
    s.append(subject.as_str());
    s
}

} // verus!
