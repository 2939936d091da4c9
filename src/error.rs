use crate::cause::{adhoc, chain_displays, context_link, displays, link_displays, Cause, Context};
use crate::chain::Chain;
use crate::cli::{software_code, CliError};
use crate::exit_code::{software, ExitCode};
use crate::sealed::Sealed;
use anyhow::Error as AnyError;
use std::fmt::{Debug, Display};
use vstd::prelude::*;
use vstd::string::{to_string_from_display_ensures, StringExecFns};

verus! {

/// Help text, either a static string or one built at run time.
#[derive(Debug)]
pub(crate) enum HelpMsg {
    Owned(String),
    Static(&'static str),
}

impl HelpMsg {
    pub(crate) open spec fn text(&self) -> Seq<char> {
        match self {
            HelpMsg::Owned(s) => s@,
            HelpMsg::Static(s) => s@,
        }
    }

    fn as_str(&self) -> (r: &str)
        ensures
            r@ == self.text(),
    {
        match self {
            HelpMsg::Owned(s) => s.as_str(),
            HelpMsg::Static(s) => s,
        }
    }
}

/// The help text after `message` is added to `help`: appended on a new line
/// when there is help already.
pub open spec fn joined(help: Option<Seq<char>>, message: Seq<char>) -> Seq<char> {
    match help {
        Some(h) => h + "\n"@ + message,
        None => message,
    }
}

/// The outermost `CliError` of a chain.
pub open spec fn first_cli(chain: Seq<Cause>) -> Option<CliError>
    decreases chain.len(),
{
    if chain.len() == 0 {
        None
    } else {
        match chain[0] {
            Cause::Cli(c) => Some(c),
            Cause::Other(_) => first_cli(chain.drop_first()),
        }
    }
}

/// The exit code of a chain: that of its outermost `CliError`, else the
/// software error code.
pub open spec fn chain_code(chain: Seq<Cause>) -> i32 {
    match first_cli(chain) {
        Some(c) => c.code(),
        None => software_code(),
    }
}

fn extended(help: &str, message: &str) -> (r: String)
    ensures
        r@ == help@ + "\n"@ + message@,
{
    let mut text = String::from_str(help);
    text.append("\n");
    text.append(message);
    text
}

/// The outermost `CliError` of a chain is the one at the first position that
/// holds one.
pub proof fn lemma_first_cli_at(chain: Seq<Cause>, j: int)
    requires
        0 <= j < chain.len(),
        chain[j] is Cli,
        forall|k: int| 0 <= k < j ==> (#[trigger] chain[k]) is Other,
    ensures
        first_cli(chain) == Some(chain[j]->Cli_0),
    decreases j,
{
    if j > 0 {
        lemma_first_cli_at(chain.drop_first(), j - 1);
    }
}

/// A chain without a `CliError` has no outermost one.
pub proof fn lemma_first_cli_none(chain: Seq<Cause>)
    requires
        forall|k: int| 0 <= k < chain.len() ==> (#[trigger] chain[k]) is Other,
    ensures
        first_cli(chain) is None,
    decreases chain.len(),
{
    if chain.len() > 0 {
        lemma_first_cli_none(chain.drop_first());
    }
}

/// An error: a chain of causes, the outermost first, and an optional help
/// message.
#[derive(Debug)]
pub struct Error {
    // innermost link first, so that wrapping pushes at the end
    links: Vec<Cause>,
    help: Option<HelpMsg>,
}

impl Error {
    #[verifier::type_invariant]
    spec fn inv(&self) -> bool {
        self.links.len() > 0
    }

    /// The chain of causes, the outermost (most recently added) first.
    pub closed spec fn causes(&self) -> Seq<Cause> {
        self.links@.reverse()
    }

    /// The help text, with every added message in the order added.
    pub closed spec fn help_text(&self) -> Option<Seq<char>> {
        match self.help {
            Some(h) => Some(h.text()),
            None => None,
        }
    }

    pub(crate) fn from_cause(cause: Cause) -> (r: Error)
        ensures
            r.causes() == seq![cause],
            r.help_text() is None,
    {
        let r = Error { links: vec![cause], help: None };
        assert(r.causes() =~= seq![cause]);
        r
    }

    /// Creates an error from a printable message.
    pub fn msg<M>(message: M) -> (r: Error) where M: Display + Debug + Send + Sync + 'static
        ensures
            r.causes().len() == 1,
            r.causes()[0] matches Cause::Other(a) && forall|s: String|
                to_string_from_display_ensures::<M>(&message, s) ==> displays(a, s@),
            r.help_text() is None,
    {
        Error::from_cause(Cause::Other(adhoc(message)))
    }

    /// Creates an error from an `anyhow::Error`, which becomes its only link:
    /// the context layers and sources that it holds are not links of the
    /// chain, but show in its own `chain`.
    pub fn from_anyhow(error: AnyError) -> (r: Error)
        ensures
            r.causes() == seq![Cause::Other(error)],
            r.help_text() is None,
    {
        Error::from_cause(Cause::Other(error))
    }

    /// Wraps the error with additional context, which becomes the outermost
    /// link; the help is kept.
    pub fn wrap<C: Context>(self, context: C) -> (r: Error)
        ensures
            r.causes().len() == self.causes().len() + 1,
            r.causes().drop_first() == self.causes(),
            context_link(context, r.causes()[0]),
            r.help_text() == self.help_text(),
    {
        proof {
            use_type_invariant(&self);
        }
        let cause = context.into_cause();
        let mut links = self.links;
        let ghost old_links = links@;
        links.push(cause);
        let r = Error { links, help: self.help };
        assert(r.causes().drop_first() =~= old_links.reverse());
        r
    }

    /// The chain position of the first link that holds a value of type `T`.
    fn position<T: Context>(&self) -> (r: Option<usize>)
        ensures
            r matches Some(j) ==> {
                &&& j < self.causes().len()
                &&& T::is_cli_type() ==> self.causes()[j as int] is Cli
                &&& T::is_cli_type() ==> forall|k: int|
                    0 <= k < j ==> (#[trigger] self.causes()[k]) is Other
                &&& !T::is_cli_type() ==> self.causes()[j as int] is Other
            },
            r is None ==> (T::is_cli_type() ==> forall|k: int|
                0 <= k < self.causes().len() ==> (#[trigger] self.causes()[k]) is Other),
    {
        let n = self.links.len();
        let mut j: usize = 0;
        while j < n
            invariant
                n == self.links.len(),
                j <= n,
                T::is_cli_type() ==> forall|k: int| 0 <= k < j ==> (#[trigger] self.causes()[k]) is Other,
            decreases n - j,
        {
            if self.links[n - 1 - j].is::<T>() {
                return Some(j);
            }
            j += 1;
        }
        None
    }

    /// Whether some link of the chain holds a value of type `T`.
    pub fn is<T: Context>(&self) -> (r: bool)
        ensures
            T::is_cli_type() ==> (r <==> first_cli(self.causes()) is Some),
            !T::is_cli_type() && r ==> exists|i: int|
                0 <= i < self.causes().len() && (#[trigger] self.causes()[i]) is Other,
    {
        let r = self.downcast_ref::<T>();
        r.is_some()
    }

    /// Takes the outermost link's value if it is of type `T`; else hands the
    /// error back unchanged.
    pub fn downcast<T: Context>(self) -> (r: Result<T, Error>)
        ensures
            r matches Err(e) ==> e.causes() == self.causes() && e.help_text() == self.help_text(),
            T::is_cli_type() ==> (r is Ok <==> self.causes()[0] is Cli),
            !T::is_cli_type() && self.causes()[0] is Cli ==> r is Err,
            r matches Ok(x) ==> (x.as_cli() matches Some(c) ==> self.causes()[0] == Cause::Cli(c)),
    {
        proof {
            use_type_invariant(&self);
        }
        let ghost chain = self.causes();
        let Error { mut links, help } = self;
        let ghost old_links = links@;
        let outer = links.pop().unwrap();
        match T::take_from(outer) {
            Ok(v) => Ok(v),
            Err(c) => {
                links.push(c);
                assert(links@ =~= old_links);
                Err(Error { links, help })
            },
        }
    }

    /// The value of type `T` held by the outermost link that holds one.
    pub fn downcast_ref<T: Context>(&self) -> (r: Option<&T>)
        ensures
            T::is_cli_type() ==> (r is Some <==> first_cli(self.causes()) is Some),
            r matches Some(x) ==> (x.as_cli() is Some ==> x.as_cli() == first_cli(self.causes())),
            !T::is_cli_type() && r is Some ==> exists|i: int|
                0 <= i < self.causes().len() && (#[trigger] self.causes()[i]) is Other,
    {
        let n = self.links.len();
        let mut j: usize = 0;
        while j < n
            invariant
                n == self.links.len(),
                j <= n,
                T::is_cli_type() ==> forall|k: int| 0 <= k < j ==> (#[trigger] self.causes()[k]) is Other,
            decreases n - j,
        {
            let found = T::find_in(&self.links[n - 1 - j]);
            if found.is_some() {
                proof {
                    if T::is_cli_type() {
                        lemma_first_cli_at(self.causes(), j as int);
                    }
                    if !T::is_cli_type() {
                        assert(self.causes()[j as int] is Other);
                    }
                }
                return found;
            }
            j += 1;
        }
        proof {
            if T::is_cli_type() {
                lemma_first_cli_none(self.causes());
            }
        }
        None
    }

    /// The value of type `T` held by the outermost link that holds one, to be
    /// changed in place.
    pub fn downcast_mut<T: Context>(&mut self) -> (r: Option<&mut T>)
        ensures
            r is None ==> final(self).causes() == old(self).causes(),
            T::is_cli_type() ==> (r is Some <==> first_cli(old(self).causes()) is Some),
            r matches Some(x) ==> (x.as_cli() is Some ==> x.as_cli() == first_cli(old(self).causes())),
            final(self).causes().len() == old(self).causes().len(),
            forall|k: int, l: int|
                0 <= k < l < old(self).causes().len() ==> (#[trigger] final(self).causes()[k])
                    == old(self).causes()[k] || (#[trigger] final(self).causes()[l])
                    == old(self).causes()[l],
            final(self).help_text() == old(self).help_text(),
    {
        proof {
            use_type_invariant(&*self);
        }
        match self.position::<T>() {
            Some(j) => {
                let n = self.links.len();
                let ghost links = self.links@;
                proof {
                    assert(links.update(n - 1 - j, links[n - 1 - j]) =~= links);
                    if T::is_cli_type() {
                        lemma_first_cli_at(self.causes(), j as int);
                    }
                }
                T::find_in_mut(&mut self.links[n - 1 - j])
            },
            None => {
                proof {
                    if T::is_cli_type() {
                        lemma_first_cli_none(self.causes());
                    }
                }
                None
            },
        }
    }

    /// Renders the outermost link's message.
    pub fn to_string(&self) -> (r: String)
        ensures
            self.causes().len() >= 1,
            link_displays(self.causes()[0], r@),
    {
        proof {
            use_type_invariant(self);
        }
        let n = self.links.len();
        self.links[n - 1].to_string()
    }

    /// The message of every link, the outermost first.
    pub fn messages(&self) -> (r: Vec<String>)
        ensures
            chain_displays(self.causes(), r@.map_values(|m: String| m@)),
            r.len() >= 1,
    {
        proof {
            use_type_invariant(self);
        }
        let n = self.links.len();
        let mut r: Vec<String> = Vec::new();
        let mut j: usize = 0;
        while j < n
            invariant
                n == self.links.len(),
                j <= n,
                r@.len() == j,
                forall|i: int| 0 <= i < j ==> link_displays(self.causes()[i], (#[trigger] r@[i])@),
            decreases n - j,
        {
            r.push(self.links[n - 1 - j].to_string());
            j = j + 1;
        }
        r
    }

    /// The chain of causes, the outermost first: one link for each value an
    /// error was made from or wrapped with; the `source` errors of such a value
    /// are not links of their own.
    pub fn chain(&self) -> (r: Chain<'_>)
        ensures
            r@ == self.causes(),
            r@.len() >= 1,
    {
        proof {
            use_type_invariant(self);
        }
        Chain::new(self.links.as_slice())
    }

    /// The innermost link of the chain.
    pub fn root_cause(&self) -> (r: &Cause)
        ensures
            self.causes().len() >= 1,
            *r == self.causes().last(),
    {
        proof {
            use_type_invariant(self);
        }
        &self.links[0]
    }

    /// The help text, with the messages added to it in the order added, one
    /// per line.
    pub fn help(&self) -> (r: Option<&str>)
        ensures
            r matches Some(h) ==> self.help_text() == Some(h@),
            r is None <==> self.help_text() is None,
    {
        match &self.help {
            Some(h) => Some(h.as_str()),
            None => None,
        }
    }

    /// Replaces the help text with an owned string.
    pub fn set_help_owned(&mut self, msg: String)
        ensures
            final(self).help_text() == Some(msg@),
            final(self).causes() == old(self).causes(),
    {
        proof {
            use_type_invariant(&*self);
        }
        self.help = Some(HelpMsg::Owned(msg));
    }

    /// Replaces the help text with a static string.
    pub fn set_help(&mut self, msg: &'static str)
        ensures
            final(self).help_text() == Some(msg@),
            final(self).causes() == old(self).causes(),
    {
        proof {
            use_type_invariant(&*self);
        }
        self.help = Some(HelpMsg::Static(msg));
    }

    /// Adds a help message: the first one becomes the help text, a later one
    /// goes on a new line after it, so that the last added is shown last.
    pub fn add_help(&mut self, help: &'static str)
        ensures
            final(self).help_text() == Some(joined(old(self).help_text(), help@)),
            final(self).causes() == old(self).causes(),
    {
        let added = match &self.help {
            Some(existing) => HelpMsg::Owned(extended(existing.as_str(), help)),
            None => HelpMsg::Static(help),
        };
        proof {
            use_type_invariant(&*self);
        }
        self.help = Some(added);
    }

    fn append_help(&mut self, message: &str)
        ensures
            final(self).help_text() == Some(joined(old(self).help_text(), message@)),
            final(self).causes() == old(self).causes(),
    {
        let added = match &self.help {
            Some(existing) => extended(existing.as_str(), message),
            None => String::from_str(message),
        };
        proof {
            use_type_invariant(&*self);
        }
        self.help = Some(HelpMsg::Owned(added));
    }

    /// Adds the help message that `f` computes, calling it once; placed as
    /// `add_help` places it.
    pub fn add_help_with<C, F>(&mut self, f: F) where
        C: Display + Send + Sync + 'static,
        F: FnOnce() -> C,

        requires
            f.requires(()),
        ensures
            exists|c: C, s: String|
                f.ensures((), c) && to_string_from_display_ensures::<C>(&c, s)
                    && final(self).help_text() == Some(joined(old(self).help_text(), s@)),
            final(self).causes() == old(self).causes(),
    {
        let message = f();
        let text = message.to_string();
        self.append_help(text.as_str());
    }
}

impl Sealed for Error {
}

impl ExitCode for Error {
    open spec fn code_of(&self) -> i32 {
        chain_code(self.causes())
    }

    fn exit_code(&self) -> (r: i32) {
        match self.downcast_ref::<CliError>() {
            Some(c) => c.exit_code(),
            None => software(),
        }
    }
}

} // verus!
