use crate::cause::{context_link, Cause, Context};
use crate::error::{joined, Error};
use crate::sealed::{Sealed, SealedCause};
use std::fmt::Display;
use vstd::prelude::*;
use vstd::string::to_string_from_display_ensures;

verus! {

/// A value that converts into an `Error`: an `Error` itself, or any value
/// that can be attached as context (a `CliError`, or any printable value such
/// as a standard error), which becomes the only link.
pub trait StdError: SealedCause + Sized {
    /// Whether an `Error` with this chain is what this value converts into.
    spec fn converts_to(self, causes: Seq<Cause>) -> bool;

    /// The help text of the `Error` this value converts into.
    spec fn carried_help(self) -> Option<Seq<char>>;

    /// Converts the value into an `Error`.
    fn into_error(self) -> (r: Error)
        ensures
            self.converts_to(r.causes()),
            r.help_text() == self.carried_help(),
    ;
}

impl SealedCause for Error {
}

impl StdError for Error {
    open spec fn converts_to(self, causes: Seq<Cause>) -> bool {
        causes == self.causes()
    }

    open spec fn carried_help(self) -> Option<Seq<char>> {
        self.help_text()
    }

    fn into_error(self) -> (r: Error) {
        self
    }
}

impl<E: Context> StdError for E {
    open spec fn converts_to(self, causes: Seq<Cause>) -> bool {
        causes.len() == 1 && context_link(self, causes[0])
    }

    open spec fn carried_help(self) -> Option<Seq<char>> {
        None
    }

    fn into_error(self) -> (r: Error) {
        Error::from_cause(self.into_cause())
    }
}

impl Error {
    /// Creates an error from a value that converts into one; a standard
    /// error, or any other printable value, becomes the only link, its own
    /// `source` errors included in it rather than added as links.
    pub fn new<E: StdError>(error: E) -> (r: Error)
        ensures
            error.converts_to(r.causes()),
            r.help_text() == error.carried_help(),
    {
        error.into_error()
    }
}

/// Converts any printable value, or a `CliError`, into an `Error` as
/// `Error::new` does, so that `?` turns such errors into `Error`s.
impl<E: Context> From<E> for Error {
    fn from(error: E) -> (r: Error)
        ensures
            error.converts_to(r.causes()),
            r.help_text() is None,
    {
        Error::new(error)
    }
}

impl<E: Context> vstd::std_specs::convert::FromSpecImpl<E> for Error {
    // an `Error` holds an outside value, so no spec function can build one;
    // what the conversion gives is stated by `Error::new`
    open spec fn obeys_from_spec() -> bool {
        false
    }

    open spec fn from_spec(v: E) -> Error {
        arbitrary()
    }
}

/// Adds context and help to the error of a `Result`, turning it into an
/// `Error`; a success passes through untouched and no closure is called.
pub trait ErrorWrap<T, E: StdError>: Sealed + Sized {
    /// The result this value is.
    spec fn outcome(self) -> Result<T, E>;

    /// Wraps the error with `context`.
    fn wrap<C: Context>(self, context: C) -> (r: Result<T, Error>)
        ensures
            match self.outcome() {
                Ok(v) => r == Ok::<T, Error>(v),
                Err(e) => r matches Err(w) && w.causes().len() > 0 && context_link(
                    context,
                    w.causes()[0],
                ) && e.converts_to(w.causes().drop_first()) && w.help_text() == e.carried_help(),
            },
    ;

    /// Wraps the error with the context that `f` computes; `f` is called only
    /// when there is an error.
    fn wrap_with<C: Context, F: FnOnce() -> C>(self, f: F) -> (r: Result<T, Error>)
        requires
            self.outcome() is Err ==> f.requires(()),
        ensures
            match self.outcome() {
                Ok(v) => r == Ok::<T, Error>(v),
                Err(e) => r matches Err(w) && w.causes().len() > 0 && (exists|c: C|
                    f.ensures((), c) && context_link(c, w.causes()[0])) && e.converts_to(
                    w.causes().drop_first(),
                ) && w.help_text() == e.carried_help(),
            },
    ;

    /// Adds a help message to the error.
    fn add_help(self, help: &'static str) -> (r: Result<T, Error>)
        ensures
            match self.outcome() {
                Ok(v) => r == Ok::<T, Error>(v),
                Err(e) => r matches Err(w) && e.converts_to(w.causes()) && w.help_text() == Some(
                    joined(e.carried_help(), help@),
                ),
            },
    ;

    /// Adds the help message that `f` computes; `f` is called only when there
    /// is an error.
    fn add_help_with<C, F>(self, f: F) -> (r: Result<T, Error>) where
        C: Display + Send + Sync + 'static,
        F: FnOnce() -> C,

        requires
            self.outcome() is Err ==> f.requires(()),
        ensures
            match self.outcome() {
                Ok(v) => r == Ok::<T, Error>(v),
                Err(e) => r matches Err(w) && e.converts_to(w.causes()) && exists|c: C, s: String|
                    f.ensures((), c) && to_string_from_display_ensures::<C>(&c, s)
                        && w.help_text() == Some(joined(e.carried_help(), s@)),
            },
    ;
}

impl<T, E: StdError> Sealed for Result<T, E> {
}

impl<T, E: StdError> ErrorWrap<T, E> for Result<T, E> {
    open spec fn outcome(self) -> Result<T, E> {
        self
    }

    fn wrap<C: Context>(self, context: C) -> (r: Result<T, Error>) {
        match self {
            Ok(v) => Ok(v),
            Err(e) => Err(e.into_error().wrap(context)),
        }
    }

    fn wrap_with<C: Context, F: FnOnce() -> C>(self, f: F) -> (r: Result<T, Error>) {
        match self {
            Ok(v) => Ok(v),
            Err(e) => {
                let base = e.into_error();
                let context = f();
                let ghost c = context;
                let w = base.wrap(context);
                assert(f.ensures((), c) && context_link(c, w.causes()[0]));
                assert(w.causes().drop_first() == base.causes());
                Err(w)
            },
        }
    }

    fn add_help(self, help: &'static str) -> (r: Result<T, Error>) {
        match self {
            Ok(v) => Ok(v),
            Err(e) => {
                let mut w = e.into_error();
                w.add_help(help);
                Err(w)
            },
        }
    }

    fn add_help_with<C, F>(self, f: F) -> (r: Result<T, Error>) where
        C: Display + Send + Sync + 'static,
        F: FnOnce() -> C,
     {
        match self {
            Ok(v) => Ok(v),
            Err(e) => {
                let mut w = e.into_error();
                w.add_help_with(f);
                Err(w)
            },
        }
    }
}

} // verus!
