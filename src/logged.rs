use vstd::prelude::*;
use crate::message::{
    channel, emits, errored_message, errored_simple_message, errored_simple_text, errored_text,
    line, not_ready_message, not_ready_simple_message, not_ready_simple_text, not_ready_text,
    polled_message, polled_text, polling_message, polling_text, ready_message,
    ready_simple_message, ready_simple_text, ready_text, LogLine,
};
use crate::outcome::Outcome;

verus! {

/// The texts logged before the wrapped unit is polled: one line, or none when
/// silenced.
pub open spec fn polling_texts(label: Seq<char>, silenced: bool) -> Seq<Seq<char>> {
    if silenced {
        seq![]
    } else {
        seq![polling_text(label)]
    }
}

/// What a full-detail decorator logs after a poll that gave `outcome`, where
/// `show_item` and `show_error` give the text of a value and of an error.
pub open spec fn polled_full_lines<T, E, R: Fn(&T) -> String, S: Fn(&E) -> String>(
    label: Seq<char>,
    silenced: bool,
    outcome: Outcome<T, E>,
    show_item: R,
    show_error: S,
    lines: Seq<LogLine>,
) -> bool {
    if silenced {
        lines.len() == 0
    } else {
        match outcome {
            Outcome::NotReady => emits(lines, seq![polled_text(label, not_ready_text())]),
            Outcome::Ready(v) => exists|s: String|
                show_item.ensures((&v,), s) && #[trigger] emits(
                    lines,
                    seq![polled_text(label, ready_text(s@))],
                ),
            Outcome::Errored(e) => exists|s: String|
                show_error.ensures((&e,), s) && #[trigger] emits(
                    lines,
                    seq![polled_text(label, errored_text(s@))],
                ),
        }
    }
}

/// What an error-only decorator logs after a poll that gave `outcome`, where
/// `show_error` gives the text of an error.
pub open spec fn polled_simple_lines<T, E, S: Fn(&E) -> String>(
    label: Seq<char>,
    silenced: bool,
    outcome: Outcome<T, E>,
    show_error: S,
    lines: Seq<LogLine>,
) -> bool {
    if silenced {
        lines.len() == 0
    } else {
        match outcome {
            Outcome::NotReady => emits(lines, seq![not_ready_simple_text(label)]),
            Outcome::Ready(_) => emits(lines, seq![ready_simple_text(label)]),
            Outcome::Errored(e) => exists|s: String|
                show_error.ensures((&e,), s) && #[trigger] emits(
                    lines,
                    seq![errored_simple_text(label, s@)],
                ),
        }
    }
}

fn one_line(message: String) -> (r: Vec<LogLine>)
    ensures
        emits(r@, seq![message@]),
{
    let mut r: Vec<LogLine> = Vec::new();
    r.push(line(message));
    r
}

fn polling_lines_of(label: &String, silenced: bool) -> (r: Vec<LogLine>)
    ensures
        emits(r@, polling_texts(label@, silenced)),
{
    if silenced {
        Vec::new()
    } else {
        one_line(polling_message(label))
    }
}

/// A computation unit decorated so that each poll of it is logged with the
/// outcome in full: the value or the error as text.
pub struct LoggedFuture<F> {
    future: F,
    label: String,
    silenced: bool,
}

impl<F> LoggedFuture<F> {
    /// The decorated unit.
    pub closed spec fn inner(&self) -> F {
        self.future
    }

    /// The label that names this decorator in every line it logs.
    pub closed spec fn label(&self) -> Seq<char> {
        self.label@
    }

    /// A silenced decorator logs nothing.
    pub closed spec fn is_silenced(&self) -> bool {
        self.silenced
    }

    /// Decorates `future` under `label`; a silenced decorator only forwards.
    pub fn new(future: F, label: &str, silenced: bool) -> (r: Self)
        ensures
            r.inner() == future,
            r.label() == label@,
            r.is_silenced() == silenced,
    {
        LoggedFuture { future, label: String::from_str(label), silenced }
    }

    /// The decorated unit, to be polled; the label and the silencing stay.
    pub fn future_mut(&mut self) -> (r: &mut F)
        ensures
            *r == old(self).inner(),
            final(self).inner() == *final(r),
            final(self).label() == old(self).label(),
            final(self).is_silenced() == old(self).is_silenced(),
    {
        &mut self.future
    }

    /// Takes the decoration off.
    pub fn into_inner(self) -> (r: F)
        ensures
            r == self.inner(),
    {
        self.future
    }

    /// The lines to log before the decorated unit is polled.
    pub fn polling_lines(&self) -> (r: Vec<LogLine>)
        ensures
            emits(r@, polling_texts(self.label(), self.is_silenced())),
    {
        polling_lines_of(&self.label, self.silenced)
    }

    /// Given what the poll of the decorated unit gave, the outcome to hand
    /// back to the scheduler, which is that one unchanged, and the lines to log
    /// after the poll. A silenced decorator renders nothing.
    pub fn finish_poll<T, E, R, S>(&self, outcome: Outcome<T, E>, show_item: R, show_error: S) -> (r: (
        Outcome<T, E>,
        Vec<LogLine>,
    )) where R: Fn(&T) -> String, S: Fn(&E) -> String
        requires
            forall|v: &T| show_item.requires((v,)),
            forall|e: &E| show_error.requires((e,)),
        ensures
            r.0 == outcome,
            polled_full_lines(self.label(), self.is_silenced(), outcome, show_item, show_error, r.1@),
    {
        if self.silenced {
            return (outcome, Vec::new());
        }
        let lines = match &outcome {
            Outcome::NotReady => one_line(polled_message(&self.label, &not_ready_message())),
            Outcome::Ready(v) => {
                let s = show_item(v);
                let lines = one_line(polled_message(&self.label, &ready_message(&s)));
                assert(emits(lines@, seq![polled_text(self.label@, ready_text(s@))]));
                lines
            },
            Outcome::Errored(e) => {
                let s = show_error(e);
                let lines = one_line(polled_message(&self.label, &errored_message(&s)));
                assert(emits(lines@, seq![polled_text(self.label@, errored_text(s@))]));
                lines
            },
        };
        (outcome, lines)
    }
}

/// A computation unit decorated so that each poll of it is logged with one of
/// three fixed lines: ready, not ready, or errored with the error as text. The
/// value needs no text.
pub struct LoggedFutureSimple<F> {
    future: F,
    label: String,
    silenced: bool,
}

impl<F> LoggedFutureSimple<F> {
    /// The decorated unit.
    pub closed spec fn inner(&self) -> F {
        self.future
    }

    /// The label that names this decorator in every line it logs.
    pub closed spec fn label(&self) -> Seq<char> {
        self.label@
    }

    /// A silenced decorator logs nothing.
    pub closed spec fn is_silenced(&self) -> bool {
        self.silenced
    }

    /// Decorates `future` under `label`; a silenced decorator only forwards.
    pub fn new(future: F, label: &str, silenced: bool) -> (r: Self)
        ensures
            r.inner() == future,
            r.label() == label@,
            r.is_silenced() == silenced,
    {
        LoggedFutureSimple { future, label: String::from_str(label), silenced }
    }

    /// The decorated unit, to be polled; the label and the silencing stay.
    pub fn future_mut(&mut self) -> (r: &mut F)
        ensures
            *r == old(self).inner(),
            final(self).inner() == *final(r),
            final(self).label() == old(self).label(),
            final(self).is_silenced() == old(self).is_silenced(),
    {
        &mut self.future
    }

    /// Takes the decoration off.
    pub fn into_inner(self) -> (r: F)
        ensures
            r == self.inner(),
    {
        self.future
    }

    /// The lines to log before the decorated unit is polled.
    pub fn polling_lines(&self) -> (r: Vec<LogLine>)
        ensures
            emits(r@, polling_texts(self.label(), self.is_silenced())),
    {
        polling_lines_of(&self.label, self.silenced)
    }

    /// Given what the poll of the decorated unit gave, the outcome to hand
    /// back to the scheduler, which is that one unchanged, and the lines to log
    /// after the poll. A silenced decorator renders nothing.
    pub fn finish_poll<T, E, S>(&self, outcome: Outcome<T, E>, show_error: S) -> (r: (
        Outcome<T, E>,
        Vec<LogLine>,
    )) where S: Fn(&E) -> String
        requires
            forall|e: &E| show_error.requires((e,)),
        ensures
            r.0 == outcome,
            polled_simple_lines(self.label(), self.is_silenced(), outcome, show_error, r.1@),
    {
        if self.silenced {
            return (outcome, Vec::new());
        }
        let lines = match &outcome {
            Outcome::NotReady => one_line(not_ready_simple_message(&self.label)),
            Outcome::Ready(_) => one_line(ready_simple_message(&self.label)),
            Outcome::Errored(e) => {
                let s = show_error(e);
                let lines = one_line(errored_simple_message(&self.label, &s));
                assert(emits(lines@, seq![errored_simple_text(self.label@, s@)]));
                lines
            },
        };
        (outcome, lines)
    }
}

/// Decoration with full-detail logging, for every computation unit.
pub trait LoggingExt: Sized {
    /// Decorates the unit under `label`; the decorator logs.
    fn inspect(self, label: &str) -> (r: LoggedFuture<Self>)
        ensures
            r.inner() == self,
            r.label() == label@,
            !r.is_silenced(),
    ;
}

impl<F> LoggingExt for F {
    fn inspect(self, label: &str) -> (r: LoggedFuture<F>) {
        LoggedFuture::new(self, label, false)
    }
}

/// Decoration with error-only logging, for every computation unit.
pub trait LoggingExtSimple: Sized {
    /// Decorates the unit under `label`; the decorator logs.
    fn inspect_simple(self, label: &str) -> (r: LoggedFutureSimple<Self>)
        ensures
            r.inner() == self,
            r.label() == label@,
            !r.is_silenced(),
    ;
}

impl<F> LoggingExtSimple for F {
    fn inspect_simple(self, label: &str) -> (r: LoggedFutureSimple<F>) {
        LoggedFutureSimple::new(self, label, false)
    }
}

} // verus!
