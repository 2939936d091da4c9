//! Error values that carry a chain of causes and a help message, a taxonomy of
//! command line failures with their process exit codes, and the text of the
//! reports printed for them.
//!
//! An [`Error`] holds its chain as links ([`Cause`]): a [`CliError`], or any
//! other printable value held type-erased by `anyhow`. Wrapping adds a link
//! in front; help messages are appended one per line; the exit code is that
//! of the outermost `CliError`, else the software error code.

mod cause;
mod chain;
mod cli;
mod error;
mod exit_code;
mod sealed;
mod wrap;

pub mod laws;
pub mod report;

pub use cause::{chain_displays, context_link, displays, link_displays, Cause, Context};
pub use chain::Chain;
pub use cli::{software_code, CliError};
pub use error::{
    chain_code, first_cli, joined, lemma_first_cli_at, lemma_first_cli_none, Error,
};
pub use exit_code::ExitCode;
pub use wrap::{ErrorWrap, StdError};
