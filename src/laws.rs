use vstd::prelude::*;
use crate::logged::{
    polled_full_lines, polled_simple_lines, polling_texts, LoggedFuture, LoggedFutureSimple,
};
use crate::message::{
    channel, emits, errored_simple_text, errored_text, not_ready_simple_text, not_ready_text,
    polled_text, polling_text, ready_simple_text, ready_text, LogLine,
};
use crate::outcome::Outcome;

verus! {

/// `text` holds `label` somewhere in it.
pub open spec fn mentions(text: Seq<char>, label: Seq<char>) -> bool {
    exists|i: int|
        0 <= i && i + label.len() <= text.len() && #[trigger] text.subrange(i, i + label.len())
            == label
}

proof fn lemma_mentions_after(prefix: Seq<char>, label: Seq<char>, rest: Seq<char>)
    ensures
        mentions(prefix + label + rest, label),
{
    let text = prefix + label + rest;
    let i = prefix.len() as int;
    assert(text.subrange(i, i + label.len()) =~= label);
}

proof fn lemma_polling_line(label: Seq<char>)
    ensures
        mentions(polling_text(label), label),
{
    lemma_mentions_after("Polling future `"@, label, "'"@);
}

proof fn lemma_polled_line(label: Seq<char>, rest: Seq<char>)
    ensures
        mentions("Future `"@ + label + rest, label),
{
    lemma_mentions_after("Future `"@, label, rest);
}

proof fn lemma_two_lines(label: Seq<char>, before: Seq<LogLine>, after: Seq<LogLine>)
    requires
        emits(before, seq![polling_text(label)]),
        after.len() == 1,
        after[0].channel@ == channel(),
        exists|rest: Seq<char>| after[0].message@ == "Future `"@ + label + rest,
    ensures
        (before + after).len() == 2,
        (before + after)[0].message@ == polling_text(label),
        (before + after).subrange(1, 2) == after,
        forall|i: int|
            0 <= i < 2 ==> (#[trigger] (before + after)[i]).channel@ == channel() && mentions(
                (before + after)[i].message@,
                label,
            ),
{
    let all = before + after;
    assert(before[0].channel@ == channel());
    assert(all[0] == before[0]);
    assert(all[1] == after[0]);
    assert(all.subrange(1, 2) =~= after);
    lemma_polling_line(label);
    let rest = choose|rest: Seq<char>| after[0].message@ == "Future `"@ + label + rest;
    lemma_polled_line(label, rest);
}

/// Each poll of a full-detail decorator that is not silenced logs exactly two
/// lines: first the one announcing the poll, then the one with its outcome,
/// both on the library's channel and both naming the decorator's label.
pub proof fn lemma_two_lines_per_poll<F, T, E, R: Fn(&T) -> String, S: Fn(&E) -> String>(
    w: LoggedFuture<F>,
    outcome: Outcome<T, E>,
    show_item: R,
    show_error: S,
    before: Seq<LogLine>,
    after: Seq<LogLine>,
)
    requires
        !w.is_silenced(),
        emits(before, polling_texts(w.label(), w.is_silenced())),
        polled_full_lines(w.label(), w.is_silenced(), outcome, show_item, show_error, after),
    ensures
        (before + after).len() == 2,
        (before + after)[0].message@ == polling_text(w.label()),
        polled_full_lines(
            w.label(),
            w.is_silenced(),
            outcome,
            show_item,
            show_error,
            (before + after).subrange(1, 2),
        ),
        forall|i: int|
            0 <= i < 2 ==> (#[trigger] (before + after)[i]).channel@ == channel() && mentions(
                (before + after)[i].message@,
                w.label(),
            ),
{
    let label = w.label();
    assert(after[0].channel@ == channel());
    let m = after[0].message@;
    assert(exists|rest: Seq<char>| m == "Future `"@ + label + rest) by {
        match outcome {
            Outcome::NotReady => {
                assert(m =~= "Future `"@ + label + ("' polled: "@ + not_ready_text()));
            },
            Outcome::Ready(v) => {
                let s = choose|s: String|
                    show_item.ensures((&v,), s) && #[trigger] emits(
                        after,
                        seq![polled_text(label, ready_text(s@))],
                    );
                assert(m =~= "Future `"@ + label + ("' polled: "@ + ready_text(s@)));
            },
            Outcome::Errored(e) => {
                let s = choose|s: String|
                    show_error.ensures((&e,), s) && #[trigger] emits(
                        after,
                        seq![polled_text(label, errored_text(s@))],
                    );
                assert(m =~= "Future `"@ + label + ("' polled: "@ + errored_text(s@)));
            },
        }
    }
    lemma_two_lines(label, before, after);
}

/// Each poll of an error-only decorator that is not silenced logs exactly two
/// lines: first the one announcing the poll, then the one with its outcome,
/// both on the library's channel and both naming the decorator's label.
pub proof fn lemma_two_lines_per_poll_simple<F, T, E, S: Fn(&E) -> String>(
    w: LoggedFutureSimple<F>,
    outcome: Outcome<T, E>,
    show_error: S,
    before: Seq<LogLine>,
    after: Seq<LogLine>,
)
    requires
        !w.is_silenced(),
        emits(before, polling_texts(w.label(), w.is_silenced())),
        polled_simple_lines(w.label(), w.is_silenced(), outcome, show_error, after),
    ensures
        (before + after).len() == 2,
        (before + after)[0].message@ == polling_text(w.label()),
        polled_simple_lines(
            w.label(),
            w.is_silenced(),
            outcome,
            show_error,
            (before + after).subrange(1, 2),
        ),
        forall|i: int|
            0 <= i < 2 ==> (#[trigger] (before + after)[i]).channel@ == channel() && mentions(
                (before + after)[i].message@,
                w.label(),
            ),
{
    let label = w.label();
    assert(after[0].channel@ == channel());
    let m = after[0].message@;
    assert(exists|rest: Seq<char>| m == "Future `"@ + label + rest) by {
        match outcome {
            Outcome::NotReady => {
                assert(m =~= "Future `"@ + label + "' polled and is not ready"@);
            },
            Outcome::Ready(_) => {
                assert(m =~= "Future `"@ + label + "' polled and is ready"@);
            },
            Outcome::Errored(e) => {
                let s = choose|s: String|
                    show_error.ensures((&e,), s) && #[trigger] emits(
                        after,
                        seq![errored_simple_text(label, s@)],
                    );
                assert(m =~= "Future `"@ + label + ("' polled and errored "@ + s@));
            },
        }
    }
    lemma_two_lines(label, before, after);
}

/// A silenced full-detail decorator logs nothing, neither before nor after a
/// poll, whatever the poll gave.
pub proof fn lemma_silenced_logs_nothing<F, T, E, R: Fn(&T) -> String, S: Fn(&E) -> String>(
    w: LoggedFuture<F>,
    outcome: Outcome<T, E>,
    show_item: R,
    show_error: S,
    before: Seq<LogLine>,
    after: Seq<LogLine>,
)
    requires
        w.is_silenced(),
        emits(before, polling_texts(w.label(), w.is_silenced())),
        polled_full_lines(w.label(), w.is_silenced(), outcome, show_item, show_error, after),
    ensures
        before + after == Seq::<LogLine>::empty(),
{
    assert(before + after =~= Seq::<LogLine>::empty());
}

/// A silenced error-only decorator logs nothing, neither before nor after a
/// poll, whatever the poll gave.
pub proof fn lemma_silenced_logs_nothing_simple<F, T, E, S: Fn(&E) -> String>(
    w: LoggedFutureSimple<F>,
    outcome: Outcome<T, E>,
    show_error: S,
    before: Seq<LogLine>,
    after: Seq<LogLine>,
)
    requires
        w.is_silenced(),
        emits(before, polling_texts(w.label(), w.is_silenced())),
        polled_simple_lines(w.label(), w.is_silenced(), outcome, show_error, after),
    ensures
        before + after == Seq::<LogLine>::empty(),
{
    assert(before + after =~= Seq::<LogLine>::empty());
}

/// After a poll, an error-only decorator that is not silenced logs one line of
/// one of three shapes: ready, not ready, or errored with some text; which one
/// goes by the outcome alone, and the value is never shown.
pub proof fn lemma_three_shapes<F, T, E, S: Fn(&E) -> String>(
    w: LoggedFutureSimple<F>,
    outcome: Outcome<T, E>,
    show_error: S,
    after: Seq<LogLine>,
)
    requires
        !w.is_silenced(),
        polled_simple_lines(w.label(), w.is_silenced(), outcome, show_error, after),
    ensures
        after.len() == 1,
        outcome is Ready <==> after[0].message@ == ready_simple_text(w.label()),
        outcome is NotReady <==> after[0].message@ == not_ready_simple_text(w.label()),
        outcome is Errored <==> exists|s: Seq<char>|
            after[0].message@ == #[trigger] errored_simple_text(w.label(), s),
{
    let label = w.label();
    assert(after[0].channel@ == channel());
    reveal_strlit("Future `");
    reveal_strlit("' polled and is ready");
    reveal_strlit("' polled and is not ready");
    reveal_strlit("' polled and errored ");
    let k: int = 8 + label.len() as int;
    assert(ready_simple_text(label)[k + 13] == 'i');
    assert(not_ready_simple_text(label)[k + 13] == 'i');
    assert(not_ready_simple_text(label)[k + 16] == 'n');
    assert(ready_simple_text(label)[k + 16] == 'r');
    assert forall|s: Seq<char>| (#[trigger] errored_simple_text(label, s))[k + 13] == 'e' by {}
    assert(ready_simple_text(label).len() == k + 21);
}

} // verus!
