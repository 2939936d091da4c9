use crate::cli::CliError;
use crate::sealed::SealedCause;
use anyhow::Error as AnyError;
use std::fmt::{Debug, Display};
use vstd::prelude::*;
use vstd::string::to_string_from_display_ensures;

verus! {

/// Declares anyhow's type-erased error object; its contents stay opaque.
#[verifier::external_type_specification]
#[verifier::external_body]
pub struct ExAnyError(AnyError);

/// Whether `text` is a text that an `anyhow::Error` can display: that of the
/// outermost value it holds, which renders itself on each call.
pub uninterp spec fn displays(e: AnyError, text: Seq<char>) -> bool;

/// One link of an error's chain of causes.
#[derive(Debug)]
pub enum Cause {
    /// A recognised command line failure.
    Cli(CliError),
    /// Any other cause, held type-erased.
    Other(AnyError),
}

/// Whether `text` is a text that a link can display.
pub open spec fn link_displays(c: Cause, text: Seq<char>) -> bool {
    match c {
        Cause::Cli(e) => text == e.text(),
        Cause::Other(a) => displays(a, text),
    }
}

/// Whether `texts` can be the texts of the links of a chain, one for each,
/// in order.
pub open spec fn chain_displays(causes: Seq<Cause>, texts: Seq<Seq<char>>) -> bool {
    &&& texts.len() == causes.len()
    &&& forall|i: int| 0 <= i < causes.len() ==> link_displays(causes[i], #[trigger] texts[i])
}

/// Whether `link` is the link that attaching `context` makes.
pub open spec fn context_link<C: Context>(context: C, link: Cause) -> bool {
    match context.as_cli() {
        Some(c) => link == Cause::Cli(c),
        None => link matches Cause::Other(a) && context.displayed_by(a),
    }
}

/// A value that can be attached to an error as a link of its chain, and
/// searched for there again by its type.
pub trait Context: SealedCause + Sized {
    /// The `CliError` this value is, when `Self` is `CliError`.
    spec fn as_cli(self) -> Option<CliError>;

    /// Whether `Self` is `CliError`.
    spec fn is_cli_type() -> bool;

    /// Whether every text this value can render is one that `a` can display.
    spec fn displayed_by(self, a: AnyError) -> bool;

    /// Makes the link that holds this value.
    fn into_cause(self) -> (r: Cause)
        ensures
            Self::is_cli_type() <==> self.as_cli() is Some,
            match self.as_cli() {
                Some(c) => r == Cause::Cli(c),
                None => r matches Cause::Other(a) && self.displayed_by(a),
            },
    ;

    /// The value of this type that the link holds, if any.
    fn find_in(c: &Cause) -> (r: Option<&Self>)
        ensures
            Self::is_cli_type() ==> (r is Some <==> c is Cli),
            !Self::is_cli_type() ==> (c is Cli ==> r is None),
            r matches Some(x) ==> (x.as_cli() matches Some(e) ==> *c == Cause::Cli(e)),
    ;

    /// The value of this type that the link holds, if any, to be changed in place.
    fn find_in_mut(c: &mut Cause) -> (r: Option<&mut Self>)
        ensures
            r is None ==> *final(c) == *old(c),
            Self::is_cli_type() ==> (r is Some <==> (*old(c)) is Cli),
            !Self::is_cli_type() ==> ((*old(c)) is Cli ==> r is None),
            r matches Some(x) ==> (x.as_cli() matches Some(e) ==> *old(c) == Cause::Cli(e)),
            (*old(c)) is Cli ==> (*final(c)) is Cli,
            (*old(c)) is Other ==> (*final(c)) is Other,
    ;

    /// Takes the value of this type out of the link, or hands the link back.
    fn take_from(c: Cause) -> (r: Result<Self, Cause>)
        ensures
            r matches Err(e) ==> e == c,
            Self::is_cli_type() ==> (r is Ok <==> c is Cli),
            !Self::is_cli_type() ==> (c is Cli ==> r is Err),
            r matches Ok(x) ==> (x.as_cli() matches Some(e) ==> c == Cause::Cli(e)),
    ;
}

impl SealedCause for CliError {
}

impl<C> SealedCause for C where C: Display + Debug + Send + Sync + 'static {
}

impl Context for CliError {
    open spec fn as_cli(self) -> Option<CliError> {
        Some(self)
    }

    open spec fn is_cli_type() -> bool {
        true
    }

    // a `CliError` is never held by an `anyhow::Error`: it is not printable
    open spec fn displayed_by(self, a: AnyError) -> bool {
        false
    }

    fn into_cause(self) -> (r: Cause) {
        Cause::Cli(self)
    }

    fn find_in(c: &Cause) -> (r: Option<&Self>) {
        match c {
            Cause::Cli(e) => Some(e),
            Cause::Other(_) => None,
        }
    }

    fn find_in_mut(c: &mut Cause) -> (r: Option<&mut Self>) {
        match c {
            Cause::Cli(e) => Some(e),
            Cause::Other(_) => None,
        }
    }

    fn take_from(c: Cause) -> (r: Result<Self, Cause>) {
        match c {
            Cause::Cli(e) => Ok(e),
            Cause::Other(a) => Err(Cause::Other(a)),
        }
    }
}

impl<C> Context for C where C: Display + Debug + Send + Sync + 'static {
    open spec fn as_cli(self) -> Option<CliError> {
        None
    }

    open spec fn is_cli_type() -> bool {
        false
    }

    open spec fn displayed_by(self, a: AnyError) -> bool {
        forall|s: String| to_string_from_display_ensures::<C>(&self, s) ==> displays(a, s@)
    }

    fn into_cause(self) -> (r: Cause) {
        Cause::Other(adhoc(self))
    }

    fn find_in(c: &Cause) -> (r: Option<&Self>) {
        match c {
            Cause::Cli(_) => None,
            Cause::Other(a) => foreign_ref::<C>(a),
        }
    }

    fn find_in_mut(c: &mut Cause) -> (r: Option<&mut Self>) {
        match c {
            Cause::Cli(_) => None,
            Cause::Other(a) => foreign_mut::<C>(a),
        }
    }

    fn take_from(c: Cause) -> (r: Result<Self, Cause>) {
        match c {
            Cause::Cli(e) => Err(Cause::Cli(e)),
            Cause::Other(a) => match foreign_take::<C>(a) {
                Ok(v) => Ok(v),
                Err(a) => Err(Cause::Other(a)),
            },
        }
    }
}

impl Cause {
    /// Renders the message of this link.
    pub fn to_string(&self) -> (r: String)
        ensures
            link_displays(*self, r@),
    {
        match self {
            Cause::Cli(c) => c.to_string(),
            Cause::Other(a) => foreign_text(a),
        }
    }

    /// Whether this link holds a value of type `T`.
    pub fn is<T: Context>(&self) -> (r: bool)
        ensures
            T::is_cli_type() ==> (r <==> self is Cli),
            self is Cli && !T::is_cli_type() ==> !r,
    {
        T::find_in(self).is_some()
    }

    /// The value of type `T` this link holds, if any.
    pub fn downcast_ref<T: Context>(&self) -> (r: Option<&T>)
        ensures
            T::is_cli_type() ==> (r is Some <==> self is Cli),
            self is Cli && !T::is_cli_type() ==> r is None,
            r matches Some(x) ==> (x.as_cli() matches Some(e) ==> *self == Cause::Cli(e)),
    {
        T::find_in(self)
    }
}

/// Relies on the `Display` impl of anyhow::Error: the message of the outermost
/// value it holds.
#[verifier::external_body]
pub(crate) fn foreign_text(e: &AnyError) -> (r: String)
    ensures
        displays(*e, r@),
{
    e.to_string()
}

/// Relies on anyhow::Error::msg: holds any printable value as an error object,
/// which displays what the value renders.
#[verifier::external_body]
pub(crate) fn adhoc<M>(message: M) -> (r: AnyError) where
    M: Display + Debug + Send + Sync + 'static,

    ensures
        forall|s: String| to_string_from_display_ensures::<M>(&message, s) ==> displays(r, s@),
{
    AnyError::msg(message)
}

/// Relies on anyhow::Error::downcast_ref: the held value, or a context of it, of type `T`.
#[verifier::external_body]
fn foreign_ref<T>(e: &AnyError) -> Option<&T> where T: Display + Debug + Send + Sync + 'static {
    e.downcast_ref::<T>()
}

/// Relies on anyhow::Error::downcast_mut: the held value, or a context of it,
/// of type `T`; the error object is left as it was when there is none.
#[verifier::external_body]
fn foreign_mut<T>(e: &mut AnyError) -> (r: Option<&mut T>) where
    T: Display + Debug + Send + Sync + 'static,

    ensures
        r is None ==> *final(e) == *old(e),
{
    e.downcast_mut::<T>()
}

/// Relies on anyhow::Error::downcast: on a type that does not match, the error
/// object comes back as it was.
#[verifier::external_body]
fn foreign_take<T>(e: AnyError) -> (r: Result<T, AnyError>) where
    T: Display + Debug + Send + Sync + 'static,

    ensures
        r matches Err(back) ==> back == e,
{
    e.downcast::<T>()
}

} // verus!
