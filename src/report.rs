use crate::cause::{chain_displays, displays, foreign_text};
use crate::error::Error;
use anyhow::Error as AnyError;
use vstd::prelude::*;
use vstd::string::{StrSliceExecFns, StringExecFns};

verus! {

/// Width, in characters, that a status title is right-aligned to.
pub const STATUS_WIDTH: usize = 12;

/// A title as it is shown (colon and any styling included), a space and the
/// message, on a line of its own.
pub open spec fn styled_line(shown_title: Seq<char>, msg: Seq<char>) -> Seq<char> {
    shown_title + " "@ + msg + "\n"@
}

/// `title: msg` on a line of its own.
pub open spec fn line_text(title: Seq<char>, msg: Seq<char>) -> Seq<char> {
    styled_line(title + ":"@, msg)
}

/// One line for each message, each under the shown title `shown_title`.
pub open spec fn styled_causes(shown_title: Seq<char>, messages: Seq<Seq<char>>) -> Seq<char>
    decreases messages.len(),
{
    if messages.len() == 0 {
        Seq::empty()
    } else {
        styled_causes(shown_title, messages.drop_last()) + styled_line(shown_title, messages.last())
    }
}

/// One `cause:` line for each message.
pub open spec fn causes_text(messages: Seq<Seq<char>>) -> Seq<char> {
    styled_causes("cause:"@, messages)
}

/// A blank line and then the help text, when there is help.
pub open spec fn help_block(help: Option<Seq<char>>) -> Seq<char> {
    match help {
        Some(h) => "\n"@ + h + "\n"@,
        None => Seq::empty(),
    }
}

/// The position just after the last line feed of `s`, or 0 without one.
pub open spec fn after_last_newline(s: Seq<char>) -> nat
    decreases s.len(),
{
    if s.len() == 0 {
        0
    } else if s.last() == '\n' {
        s.len()
    } else {
        after_last_newline(s.drop_last())
    }
}

/// The last line of `s` as `str::lines` splits it: a final line feed ends the
/// last line rather than starting an empty one, and a carriage return right
/// before that line feed is not part of the line.
pub open spec fn last_line(s: Seq<char>) -> Seq<char> {
    if s.len() > 0 && s.last() == '\n' {
        let body = s.drop_last();
        let line = body.subrange(after_last_newline(body) as int, body.len() as int);
        if line.len() > 0 && line.last() == '\r' {
            line.drop_last()
        } else {
            line
        }
    } else {
        s.subrange(after_last_newline(s) as int, s.len() as int)
    }
}

/// The spaces that make `s` `width` characters wide, none when it is wider.
pub open spec fn padding(s: Seq<char>, width: nat) -> Seq<char> {
    if s.len() < width {
        Seq::new((width - s.len()) as nat, |i: int| ' ')
    } else {
        Seq::empty()
    }
}

/// `s` preceded by enough spaces to make it `width` characters wide.
pub open spec fn right_aligned(s: Seq<char>, width: nat) -> Seq<char> {
    padding(s, width) + s
}

/// The plain text of a status line: the title right-aligned, then the message.
pub open spec fn status_text(title: Seq<char>, msg: Seq<char>) -> Seq<char> {
    right_aligned(title, STATUS_WIDTH as nat) + " "@ + msg + "\n"@
}

/// The text of an error report under the shown titles `error_title` and
/// `cause_title`, given the messages of the chain, the outermost first: the
/// error line, then in the full form a cause line for each other link and all
/// the help, else only the last line of the help.
pub open spec fn styled_report_text(
    error_title: Seq<char>,
    cause_title: Seq<char>,
    messages: Seq<Seq<char>>,
    help: Option<Seq<char>>,
    full: bool,
) -> Seq<char> {
    if full {
        styled_line(error_title, messages[0]) + styled_causes(cause_title, messages.drop_first())
            + help_block(help)
    } else {
        styled_line(error_title, messages[0]) + help_block(
            match help {
                Some(h) => Some(last_line(h)),
                None => None,
            },
        )
    }
}

/// The plain text of an error report: `error:` and `cause:` titles.
pub open spec fn report_text(messages: Seq<Seq<char>>, help: Option<Seq<char>>, full: bool) -> Seq<
    char,
> {
    styled_report_text("error:"@, "cause:"@, messages, help, full)
}

/// Formats `title: msg` as one line.
pub fn format_line(title: &str, msg: &str) -> (r: String)
    ensures
        r@ == line_text(title@, msg@),
{
    let mut shown = String::from_str(title);
    shown.append(":");
    format_styled_line(shown.as_str(), msg)
}

/// Formats the `error:` line of a report.
pub fn format_error_title(msg: &str) -> (r: String)
    ensures
        r@ == line_text("error"@, msg@),
{
    format_line("error", msg)
}

/// Formats a `cause:` line for every message but the first, which is the
/// error's own.
pub fn format_error_causes(messages: &Vec<String>) -> (r: String)
    ensures
        messages.len() > 0 ==> r@ == causes_text(messages@.map_values(|m: String| m@).drop_first()),
        messages.len() == 0 ==> r@.len() == 0,
{
    format_styled_causes("cause:", messages)
}

/// Formats a line under the shown title `shown_title` for every message but
/// the first, which is the error's own.
pub fn format_styled_causes(shown_title: &str, messages: &Vec<String>) -> (r: String)
    ensures
        messages.len() > 0 ==> r@ == styled_causes(
            shown_title@,
            messages@.map_values(|m: String| m@).drop_first(),
        ),
        messages.len() == 0 ==> r@.len() == 0,
{
    let ghost texts = messages@.map_values(|m: String| m@);
    let mut s = String::new();
    let mut i: usize = 1;
    while i < messages.len()
        invariant
            1 <= i,
            messages.len() > 0 ==> i <= messages.len(),
            texts == messages@.map_values(|m: String| m@),
            messages.len() > 0 ==> s@ == styled_causes(shown_title@, texts.subrange(1, i as int)),
            messages.len() == 0 ==> s@.len() == 0,
        decreases messages.len() - i,
    {
        let line = format_styled_line(shown_title, messages[i].as_str());
        s.append(line.as_str());
        proof {
            let next = texts.subrange(1, i + 1);
            assert(next.drop_last() =~= texts.subrange(1, i as int));
        }
        i = i + 1;
    }
    proof {
        if messages.len() > 0 {
            assert(texts.subrange(1, messages.len() as int) =~= texts.drop_first());
        }
    }
    s
}

/// Formats a blank line and then all the help, when there is help.
pub fn format_error_help_all(help: Option<&str>) -> (r: String)
    ensures
        r@ == help_block(
            match help {
                Some(h) => Some(h@),
                None => None,
            },
        ),
{
    match help {
        Some(h) => {
            let mut s = String::from_str("\n");
            s.append(h);
            s.append("\n");
            s
        },
        None => String::new(),
    }
}

/// Formats a blank line and then the last line of the help, when there is
/// help: the message added last.
pub fn format_error_help(help: Option<&str>) -> (r: String)
    ensures
        r@ == help_block(
            match help {
                Some(h) => Some(last_line(h@)),
                None => None,
            },
        ),
{
    match help {
        Some(h) => {
            let line = last_line_of(h);
            let mut s = String::from_str("\n");
            s.append(line.as_str());
            s.append("\n");
            s
        },
        None => String::new(),
    }
}

/// The last line of `s`, as `str::lines` splits it.
pub fn last_line_of(s: &str) -> (r: String)
    ensures
        r@ == last_line(s@),
{
    let n = s.unicode_len();
    let mut end = n;
    if n > 0 && s.get_char(n - 1) == '\n' {
        end = n - 1;
    }
    let ghost body = s@.subrange(0, end as int);
    let mut start = end;
    while start > 0 && s.get_char(start - 1) != '\n'
        invariant
            start <= end <= n,
            n == s@.len(),
            body == s@.subrange(0, end as int),
            after_last_newline(body) == after_last_newline(s@.subrange(0, start as int)),
        decreases start,
    {
        proof {
            let pre = s@.subrange(0, start as int);
            assert(pre.drop_last() =~= s@.subrange(0, start - 1));
        }
        start = start - 1;
    }
    proof {
        let pre = s@.subrange(0, start as int);
        assert(after_last_newline(pre) == start);
        if end == n - 1 && n > 0 && s@[n - 1] == '\n' {
            assert(body =~= s@.drop_last());
        } else {
            assert(body =~= s@);
        }
    }
    if end < n && start < end && s.get_char(end - 1) == '\r' {
        end = end - 1;
    }
    let line = s.substring_char(start, end);
    proof {
        assert(line@ =~= last_line(s@));
    }
    String::from_str(line)
}

/// Formats a status line: the title right-aligned to `STATUS_WIDTH`
/// characters, a space, and the message.
pub fn format_status(title: &str, msg: &str) -> (r: String)
    ensures
        r@ == status_text(title@, msg@),
{
    let r = format_styled_status(title, title, msg);
    assert(r@ =~= status_text(title@, msg@));
    r
}

/// Formats a status line whose title is shown as `shown_title` (the title
/// with styling added), right-aligned as `title` itself would be.
pub fn format_styled_status(title: &str, shown_title: &str, msg: &str) -> (r: String)
    ensures
        r@ == padding(title@, STATUS_WIDTH as nat) + shown_title@ + " "@ + msg@ + "\n"@,
{
    let n = title.unicode_len();
    let mut s = String::new();
    let mut i = n;
    while i < STATUS_WIDTH
        invariant
            n == title@.len(),
            n <= i <= STATUS_WIDTH || (n >= STATUS_WIDTH && i == n),
            s@ == Seq::new((i - n) as nat, |k: int| ' '),
        decreases STATUS_WIDTH - i,
    {
        s.append(" ");
        proof {
            reveal_strlit(" ");
        }
        assert(s@ =~= Seq::new((i + 1 - n) as nat, |k: int| ' '));
        i = i + 1;
    }
    assert(s@ =~= padding(title@, STATUS_WIDTH as nat));
    s.append(shown_title);
    s.append(" ");
    s.append(msg);
    s.append("\n");
    s
}

/// Formats a line from a title as it is to be shown, colon included, and a
/// message.
pub fn format_styled_line(shown_title: &str, msg: &str) -> (r: String)
    ensures
        r@ == shown_title@ + " "@ + msg@ + "\n"@,
{
    let mut s = String::from_str(shown_title);
    s.append(" ");
    s.append(msg);
    s.append("\n");
    s
}

/// The error line, then `Cause:` lines for the other links, then a blank
/// line and the help: how an error is shown when it ends the program.
pub open spec fn debug_text(messages: Seq<Seq<char>>, help: Option<Seq<char>>) -> Seq<char>
    decreases messages.len(),
{
    if messages.len() <= 1 {
        messages[0] + match help {
            Some(h) => "\n\n"@ + h,
            None => Seq::empty(),
        }
    } else {
        debug_text(messages.drop_last(), None) + "\nCause: "@ + messages.last() + match help {
            Some(h) => "\n\n"@ + h,
            None => Seq::empty(),
        }
    }
}

/// Formats an error report from the messages of the chain, the outermost
/// first, and the help.
pub fn format_report(messages: &Vec<String>, help: Option<&str>, full: bool) -> (r: String)
    requires
        messages.len() > 0,
    ensures
        r@ == report_text(
            messages@.map_values(|m: String| m@),
            match help {
                Some(h) => Some(h@),
                None => None,
            },
            full,
        ),
{
    format_styled_report("error:", "cause:", messages, help, full)
}

/// Formats an error report as `format_report` does, with the error and cause
/// titles shown as `error_title` and `cause_title` (colon and styling
/// included).
pub fn format_styled_report(
    error_title: &str,
    cause_title: &str,
    messages: &Vec<String>,
    help: Option<&str>,
    full: bool,
) -> (r: String)
    requires
        messages.len() > 0,
    ensures
        r@ == styled_report_text(
            error_title@,
            cause_title@,
            messages@.map_values(|m: String| m@),
            match help {
                Some(h) => Some(h@),
                None => None,
            },
            full,
        ),
{
    let mut s = format_styled_line(error_title, messages[0].as_str());
    if full {
        let causes = format_styled_causes(cause_title, messages);
        s.append(causes.as_str());
        let h = format_error_help_all(help);
        s.append(h.as_str());
    } else {
        let h = format_error_help(help);
        s.append(h.as_str());
    }
    s
}

/// The text of the short report of an error: its message and the help added
/// last.
pub fn err_text(err: &Error) -> (r: String)
    ensures
        exists|m: Seq<Seq<char>>|
            chain_displays(err.causes(), m) && r@ == report_text(m, err.help_text(), false),
{
    let messages = err.messages();
    format_report(&messages, err.help(), false)
}

/// The text of the full report of an error: its message, each cause, and all
/// the help.
pub fn err_full_text(err: &Error) -> (r: String)
    ensures
        exists|m: Seq<Seq<char>>|
            chain_displays(err.causes(), m) && r@ == report_text(m, err.help_text(), true),
{
    let messages = err.messages();
    format_report(&messages, err.help(), true)
}

/// The text of the short report of an `anyhow::Error`: its message.
pub fn anyhow_err_text(err: &AnyError) -> (r: String)
    ensures
        exists|m: Seq<char>| displays(*err, m) && r@ == line_text("error"@, m),
{
    let msg = foreign_text(err);
    format_error_title(msg.as_str())
}

/// The text of the full report of an `anyhow::Error`: its message and each of
/// its causes.
pub fn anyhow_err_full_text(err: &AnyError) -> (r: String)
    ensures
        exists|m: Seq<Seq<char>>|
            chain_displays_all(*err, m) && m.len() >= 1 && r@ == report_text(m, None, true),
{
    let messages = foreign_chain_text(err);
    format_report(&messages, None, true)
}

/// The text an error shows when it ends the program: its message, a `Cause:`
/// line for each other link, and a blank line and the help.
pub fn format_debug(err: &Error) -> (r: String)
    ensures
        exists|m: Seq<Seq<char>>|
            chain_displays(err.causes(), m) && r@ == debug_text(m, err.help_text()),
{
    let messages = err.messages();
    let ghost texts = messages@.map_values(|m: String| m@);
    let mut s = String::from_str(messages[0].as_str());
    let mut i: usize = 1;
    while i < messages.len()
        invariant
            1 <= i <= messages.len(),
            texts == messages@.map_values(|m: String| m@),
            s@ == debug_text(texts.subrange(0, i as int), None),
        decreases messages.len() - i,
    {
        s.append("\nCause: ");
        s.append(messages[i].as_str());
        proof {
            assert(texts.subrange(0, i + 1).drop_last() =~= texts.subrange(0, i as int));
        }
        i = i + 1;
    }
    proof {
        assert(texts.subrange(0, messages.len() as int) =~= texts);
    }
    match err.help() {
        Some(h) => {
            s.append("\n\n");
            s.append(h);
        },
        None => {},
    }
    s
}

/// Whether `texts` can be what the errors of an `anyhow::Error`'s chain
/// display, the error itself first, then each source; each renders itself on
/// every call.
pub uninterp spec fn chain_displays_all(e: AnyError, texts: Seq<Seq<char>>) -> bool;

/// Relies on anyhow::Error::chain: the error itself comes first, displaying
/// what the `anyhow::Error` displays, then each source; here the text of each.
#[verifier::external_body]
fn foreign_chain_text(err: &AnyError) -> (r: Vec<String>)
    ensures
        chain_displays_all(*err, r@.map_values(|m: String| m@)),
        r.len() >= 1,
        displays(*err, r[0]@),
{
    err.chain().map(|cause| cause.to_string()).collect()
}

} // verus!
