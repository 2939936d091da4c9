use crate::cause::{chain_displays, link_displays, Cause};
use crate::cli::{software_code, CliError};
use crate::error::{chain_code, first_cli, joined, lemma_first_cli_at, lemma_first_cli_none, Error};
use crate::exit_code::ExitCode;
use vstd::prelude::*;

verus! {

/// Messages joined into one text, one per line, in order.
pub open spec fn join_lines(messages: Seq<Seq<char>>) -> Seq<char>
    decreases messages.len(),
{
    if messages.len() <= 1 {
        if messages.len() == 0 {
            Seq::empty()
        } else {
            messages[0]
        }
    } else {
        join_lines(messages.drop_last()) + "\n"@ + messages.last()
    }
}

/// Wrapping an error `n` times, starting from an error made from one cause,
/// gives a chain of `n + 1` links, the context added last first and the
/// original cause last.
///
/// `steps[0]` is the error made from the cause and `steps[i + 1]` is
/// `steps[i]` wrapped once, as `Error::wrap` ensures.
pub proof fn lemma_wrap_grows_chain(steps: Seq<Error>)
    requires
        steps.len() > 0,
        steps[0].causes().len() == 1,
        forall|i: int|
            0 <= i < steps.len() - 1 ==> (#[trigger] steps[i + 1]).causes().len() == steps[i].causes().len()
                + 1 && steps[i + 1].causes().drop_first() == steps[i].causes(),
    ensures
        steps.last().causes().len() == steps.len(),
        forall|k: int|
            0 <= k < steps.len() ==> steps.last().causes()[k] == (#[trigger] steps[steps.len() - 1
                - k]).causes()[0],
        forall|texts: Seq<Seq<char>>, k: int|
            #[trigger] chain_displays(steps.last().causes(), texts) && 0 <= k < steps.len()
                ==> #[trigger] link_displays(steps[steps.len() - 1 - k].causes()[0], texts[k]),
    decreases steps.len(),
{
    if steps.len() > 1 {
        let prefix = steps.drop_last();
        assert forall|i: int| 0 <= i < prefix.len() - 1 implies (#[trigger] prefix[i + 1]).causes().len()
            == prefix[i].causes().len() + 1 && prefix[i + 1].causes().drop_first()
            == prefix[i].causes() by {
            assert(prefix[i + 1] == steps[i + 1]);
        }
        lemma_wrap_grows_chain(prefix);
        let n = steps.len();
        let last = steps.last();
        assert(last == steps[n - 2 + 1]);
        assert forall|k: int| 0 <= k < n implies last.causes()[k] == (#[trigger] steps[n - 1
            - k]).causes()[0] by {
            if k > 0 {
                assert(last.causes()[k] == last.causes().drop_first()[k - 1]);
                assert(prefix.last().causes()[k - 1] == prefix[prefix.len() - 1 - (k - 1)].causes()[0]);
            }
        }
    }
}

/// An error holds a `CliError`, as `is::<CliError>` reports, exactly when some
/// link of its chain is one, however deep.
pub proof fn lemma_cli_found_iff_some_link(e: Error)
    ensures
        first_cli(e.causes()) is Some <==> exists|i: int|
            0 <= i < e.causes().len() && (#[trigger] e.causes()[i]) is Cli,
{
    lemma_first_cli_exists(e.causes());
}

proof fn lemma_first_cli_exists(chain: Seq<Cause>)
    ensures
        first_cli(chain) is Some <==> exists|i: int| 0 <= i < chain.len() && (#[trigger] chain[i]) is Cli,
    decreases chain.len(),
{
    if chain.len() > 0 {
        lemma_first_cli_exists(chain.drop_first());
        if first_cli(chain.drop_first()) is Some {
            let i = choose|i: int|
                0 <= i < chain.drop_first().len() && (#[trigger] chain.drop_first()[i]) is Cli;
            assert(chain[i + 1] is Cli);
        }
        if exists|i: int| 0 <= i < chain.len() && (#[trigger] chain[i]) is Cli {
            let i = choose|i: int| 0 <= i < chain.len() && (#[trigger] chain[i]) is Cli;
            if i > 0 {
                assert(chain.drop_first()[i - 1] is Cli);
            }
        }
    }
}

/// Adding help messages one after another to an error without help gives a
/// help text that is the messages joined by line feeds, in the order added.
///
/// `helps[0]` is the help of the error before, and `helps[i + 1]` the help
/// after adding `messages[i]`, as `Error::add_help` ensures.
pub proof fn lemma_added_help_joins(helps: Seq<Option<Seq<char>>>, messages: Seq<Seq<char>>)
    requires
        helps.len() == messages.len() + 1,
        messages.len() > 0,
        helps[0] is None,
        forall|i: int|
            0 <= i < messages.len() ==> #[trigger] helps[i + 1] == Some(joined(helps[i], messages[i])),
    ensures
        helps.last() == Some(join_lines(messages)),
    decreases messages.len(),
{
    let n = messages.len();
    if n > 1 {
        let hs = helps.drop_last();
        let ms = messages.drop_last();
        assert forall|i: int| 0 <= i < ms.len() implies #[trigger] hs[i + 1] == Some(
            joined(hs[i], ms[i]),
        ) by {
            assert(hs[i + 1] == helps[i + 1]);
        }
        lemma_added_help_joins(hs, ms);
        assert(helps[n - 1 + 1] == Some(joined(helps[n - 1], messages[n - 1])));
    } else {
        assert(helps[0int + 1] == Some(joined(helps[0], messages[0])));
    }
}

/// An error with no `CliError` in its chain exits with the software error
/// code.
pub proof fn lemma_unrecognized_exits_software(e: Error)
    requires
        forall|k: int| 0 <= k < e.causes().len() ==> (#[trigger] e.causes()[k]) is Other,
    ensures
        e.code_of() == software_code(),
{
    lemma_first_cli_none(e.causes());
}

/// An error exits with the code of its outermost `CliError`, however many
/// other links wrap it and whatever `CliError`s lie deeper.
pub proof fn lemma_outermost_cli_decides(e: Error, j: int, c: CliError)
    requires
        0 <= j < e.causes().len(),
        e.causes()[j] == Cause::Cli(c),
        forall|k: int| 0 <= k < j ==> (#[trigger] e.causes()[k]) is Other,
    ensures
        e.code_of() == c.code(),
{
    lemma_first_cli_at(e.causes(), j);
}

/// Wrapping an error with context that is not a `CliError` keeps its exit
/// code.
pub proof fn lemma_context_keeps_code(before: Error, after: Error)
    requires
        after.causes().len() == before.causes().len() + 1,
        after.causes().drop_first() == before.causes(),
        after.causes()[0] is Other,
    ensures
        after.code_of() == before.code_of(),
{
    assert(first_cli(after.causes()) == first_cli(after.causes().drop_first()));
}

/// Wrapping an error with a `CliError` gives the exit code of that `CliError`.
pub proof fn lemma_cli_context_decides(before: Error, after: Error, c: CliError)
    requires
        after.causes().len() == before.causes().len() + 1,
        after.causes()[0] == Cause::Cli(c),
    ensures
        after.code_of() == c.code(),
{
}

/// The links a walk over a chain took from the front, in the order taken;
/// `from_front[i]` tells from which end `taken[i]` came.
pub open spec fn front_taken(taken: Seq<Cause>, from_front: Seq<bool>) -> Seq<Cause>
    decreases taken.len(),
{
    if taken.len() == 0 || from_front.len() == 0 {
        Seq::empty()
    } else if from_front.last() {
        front_taken(taken.drop_last(), from_front.drop_last()).push(taken.last())
    } else {
        front_taken(taken.drop_last(), from_front.drop_last())
    }
}

/// The links a walk over a chain took from the back, in the order taken.
pub open spec fn back_taken(taken: Seq<Cause>, from_front: Seq<bool>) -> Seq<Cause>
    decreases taken.len(),
{
    if taken.len() == 0 || from_front.len() == 0 {
        Seq::empty()
    } else if from_front.last() {
        back_taken(taken.drop_last(), from_front.drop_last())
    } else {
        back_taken(taken.drop_last(), from_front.drop_last()).push(taken.last())
    }
}

proof fn lemma_reverse_push(s: Seq<Cause>, t: Cause)
    ensures
        s.push(t).reverse() == seq![t] + s.reverse(),
{
    assert(s.push(t).reverse() =~= seq![t] + s.reverse());
}

proof fn lemma_walk_step(
    f: Seq<Cause>,
    b: Seq<Cause>,
    prev: Seq<Cause>,
    next: Seq<Cause>,
    t: Cause,
    from_front: bool,
)
    requires
        prev.len() > 0,
        from_front ==> t == prev[0] && next == prev.drop_first(),
        !from_front ==> t == prev.last() && next == prev.drop_last(),
    ensures
        from_front ==> f.push(t) + next + b.reverse() == f + prev + b.reverse(),
        !from_front ==> f + next + b.push(t).reverse() == f + prev + b.reverse(),
{
    if from_front {
        assert(f.push(t) + next =~= f + prev);
    } else {
        lemma_reverse_push(b, t);
        assert(next + (seq![t] + b.reverse()) =~= prev + b.reverse());
        assert(f + next + b.push(t).reverse() =~= f + prev + b.reverse());
    }
}

/// Taking links from both ends of a chain, in any interleaving of `next` and
/// `next_back`, visits each link once in one fixed order: what was taken from
/// the front, what is left, and what was taken from the back read backwards
/// make up the chain; once nothing is left, the front and back items together
/// are the whole chain.
///
/// `views[i]` is what a `Chain` has left before step `i`, and step `i` takes
/// `taken[i]` as `Chain::next` (`from_front[i]`) or `Chain::next_back`
/// ensures.
pub proof fn lemma_walk_takes_each_once(
    views: Seq<Seq<Cause>>,
    from_front: Seq<bool>,
    taken: Seq<Cause>,
)
    requires
        views.len() == taken.len() + 1,
        from_front.len() == taken.len(),
        forall|i: int|
            0 <= i < taken.len() ==> (#[trigger] views[i]).len() > 0 && (from_front[i] ==> taken[i]
                == views[i][0] && views[i + 1] == views[i].drop_first()) && (!from_front[i]
                ==> taken[i] == views[i].last() && views[i + 1] == views[i].drop_last()),
    ensures
        front_taken(taken, from_front) + views.last() + back_taken(taken, from_front).reverse()
            == views[0],
        front_taken(taken, from_front).len() + back_taken(taken, from_front).len() == taken.len(),
        views.last().len() == 0 ==> front_taken(taken, from_front) + back_taken(
            taken,
            from_front,
        ).reverse() == views[0],
    decreases taken.len(),
{
    let n = taken.len();
    if n == 0 {
        assert(front_taken(taken, from_front) + views.last() + back_taken(taken, from_front).reverse()
            =~= views[0]);
    } else {
        let vs = views.drop_last();
        let fs = from_front.drop_last();
        let ts = taken.drop_last();
        assert forall|i: int| 0 <= i < ts.len() implies (#[trigger] vs[i]).len() > 0 && (fs[i] ==> ts[i]
            == vs[i][0] && vs[i + 1] == vs[i].drop_first()) && (!fs[i] ==> ts[i] == vs[i].last()
            && vs[i + 1] == vs[i].drop_last()) by {
            assert(vs[i] == views[i]);
            assert(vs[i + 1] == views[i + 1]);
        }
        lemma_walk_takes_each_once(vs, fs, ts);
        let f0 = front_taken(ts, fs);
        let b0 = back_taken(ts, fs);
        let prev = views[n - 1];
        assert(views[n - 1].len() > 0);
        let t = taken[n - 1];
        assert(views[n - 1 + 1] == views.last());
        if from_front[n - 1] {
            assert(front_taken(taken, from_front) == f0.push(t));
            assert(back_taken(taken, from_front) == b0);
        } else {
            assert(front_taken(taken, from_front) == f0);
            assert(back_taken(taken, from_front) == b0.push(t));
        }
        lemma_walk_step(f0, b0, prev, views.last(), t, from_front[n - 1]);
    }
    if views.last().len() == 0 {
        let f = front_taken(taken, from_front);
        let b = back_taken(taken, from_front);
        assert(f + views.last() + b.reverse() =~= f + b.reverse());
    }
}

} // verus!
