use crate::cli::{software_code, CliError};
use crate::sealed::Sealed;
use anyhow::Error as AnyError;
use vstd::prelude::*;

verus! {

/// Provides the process exit code of an error, meant for `std::process::exit`.
pub trait ExitCode: Sealed {
    /// The code that `exit_code` returns.
    spec fn code_of(&self) -> i32;

    /// Command line application exit code.
    fn exit_code(&self) -> (r: i32)
        ensures
            r == self.code_of(),
    ;
}

impl Sealed for CliError {
}

impl ExitCode for CliError {
    open spec fn code_of(&self) -> i32 {
        self.code()
    }

    fn exit_code(&self) -> (r: i32) {
        match self {
            CliError::Config => config(),
            CliError::CreateFile(_) => cantcreat(),
            CliError::InputData | CliError::ResourceNotFound(_) => dataerr(),
            CliError::InputFileNotFound(_) => noinput(),
            CliError::NoUser(_) => nouser(),
            CliError::NoHost(_) => nohost(),
            CliError::OperationPermission(_) => noperm(),
            CliError::OsErr => oserr(),
            CliError::OsFileNotFound(_) => osfile(),
            CliError::ReadFile(_) | CliError::WriteFile(_) => ioerr(),
            CliError::Protocol => protocol(),
            CliError::Temporary => tempfail(),
            CliError::Usage => usage(),
        }
    }
}

impl Sealed for AnyError {
}

/// Neither a `CliError` nor an `Error` of this crate can be held by an
/// `anyhow::Error` (they are not printable), so none is recognised in one.
impl ExitCode for AnyError {
    open spec fn code_of(&self) -> i32 {
        software_code()
    }

    fn exit_code(&self) -> (r: i32) {
        software()
    }
}

/// Relies on exitcode::SOFTWARE: the code of an internal software error, 70.
#[verifier::external_body]
pub(crate) fn software() -> (r: i32)
    ensures
        r == software_code(),
{
    exitcode::SOFTWARE
}

/// Relies on exitcode::CONFIG: the code of a configuration error, 78.
#[verifier::external_body]
fn config() -> (r: i32)
    ensures
        r == 78,
{
    exitcode::CONFIG
}

/// Relies on exitcode::CANTCREAT: the code of an output file that cannot be created, 73.
#[verifier::external_body]
fn cantcreat() -> (r: i32)
    ensures
        r == 73,
{
    exitcode::CANTCREAT
}

/// Relies on exitcode::DATAERR: the code of malformed input data, 65.
#[verifier::external_body]
fn dataerr() -> (r: i32)
    ensures
        r == 65,
{
    exitcode::DATAERR
}

/// Relies on exitcode::NOINPUT: the code of an input file that is missing or unreadable, 66.
#[verifier::external_body]
fn noinput() -> (r: i32)
    ensures
        r == 66,
{
    exitcode::NOINPUT
}

/// Relies on exitcode::NOUSER: the code of an unknown user, 67.
#[verifier::external_body]
fn nouser() -> (r: i32)
    ensures
        r == 67,
{
    exitcode::NOUSER
}

/// Relies on exitcode::NOHOST: the code of an unknown host, 68.
#[verifier::external_body]
fn nohost() -> (r: i32)
    ensures
        r == 68,
{
    exitcode::NOHOST
}

/// Relies on exitcode::NOPERM: the code of a missing permission, 77.
#[verifier::external_body]
fn noperm() -> (r: i32)
    ensures
        r == 77,
{
    exitcode::NOPERM
}

/// Relies on exitcode::OSERR: the code of an operating system error, 71.
#[verifier::external_body]
fn oserr() -> (r: i32)
    ensures
        r == 71,
{
    exitcode::OSERR
}

/// Relies on exitcode::OSFILE: the code of a missing or malformed system file, 72.
#[verifier::external_body]
fn osfile() -> (r: i32)
    ensures
        r == 72,
{
    exitcode::OSFILE
}

/// Relies on exitcode::IOERR: the code of an error while doing I/O on a file, 74.
#[verifier::external_body]
fn ioerr() -> (r: i32)
    ensures
        r == 74,
{
    exitcode::IOERR
}

/// Relies on exitcode::PROTOCOL: the code of a remote system that cannot follow the protocol, 76.
#[verifier::external_body]
fn protocol() -> (r: i32)
    ensures
        r == 76,
{
    exitcode::PROTOCOL
}

/// Relies on exitcode::TEMPFAIL: the code of a temporary failure, 75.
#[verifier::external_body]
fn tempfail() -> (r: i32)
    ensures
        r == 75,
{
    exitcode::TEMPFAIL
}

/// Relies on exitcode::USAGE: the code of a command used incorrectly, 64.
#[verifier::external_body]
fn usage() -> (r: i32)
    ensures
        r == 64,
{
    exitcode::USAGE
}

} // verus!
