use std::cell::RefCell;
use std::rc::Rc;

use futures::{Async, Future, Poll};
use futures_poll_log::{LogLine, LoggedFuture, LoggedFutureSimple, LoggingExt, LoggingExtSimple, Outcome};

fn outcome_of<T, E>(poll: Poll<T, E>) -> Outcome<T, E> {
    match poll {
        Ok(Async::NotReady) => Outcome::NotReady,
        Ok(Async::Ready(v)) => Outcome::Ready(v),
        Err(e) => Outcome::Errored(e),
    }
}

fn poll_of<T, E>(outcome: Outcome<T, E>) -> Poll<T, E> {
    match outcome {
        Outcome::NotReady => Ok(Async::NotReady),
        Outcome::Ready(v) => Ok(Async::Ready(v)),
        Outcome::Errored(e) => Err(e),
    }
}

fn texts(lines: &[LogLine]) -> Vec<String> {
    lines.iter().map(|l| l.message.clone()).collect()
}

fn show<X: std::fmt::Debug>(x: &X) -> String {
    format!("{:?}", x)
}

/// A unit that is not ready on its first poll and ready on its second.
struct Later {
    polled: bool,
}

impl Future for Later {
    type Item = u32;
    type Error = String;

    fn poll(&mut self) -> Poll<u32, String> {
        if self.polled {
            Ok(Async::Ready(7))
        } else {
            self.polled = true;
            Ok(Async::NotReady)
        }
    }
}

/// A unit whose value has no text.
#[derive(PartialEq)]
struct Opaque(u8);

/// Drives a decorated unit as a scheduler would, collecting every logged line.
struct Traced<F> {
    logged: LoggedFuture<F>,
    sink: Rc<RefCell<Vec<String>>>,
}

impl<F> Future for Traced<F>
where
    F: Future,
    F::Item: std::fmt::Debug,
    F::Error: std::fmt::Debug,
{
    type Item = F::Item;
    type Error = F::Error;

    fn poll(&mut self) -> Poll<F::Item, F::Error> {
        let before = self.logged.polling_lines();
        self.sink.borrow_mut().extend(texts(&before));
        let polled = self.logged.future_mut().poll();
        let (outcome, after) = self.logged.finish_poll(outcome_of(polled), show, show);
        self.sink.borrow_mut().extend(texts(&after));
        poll_of(outcome)
    }
}

#[test]
fn immediate_future_logs_its_value() {
    let mut w = LoggingExt::inspect(futures::future::ok::<i32, String>(3), "immediate future");
    let before = w.polling_lines();
    let polled = w.future_mut().poll();
    let (outcome, after) = w.finish_poll(outcome_of(polled), show, show);
    assert_eq!(texts(&before), vec!["Polling future `immediate future'".to_string()]);
    assert_eq!(texts(&after), vec!["Future `immediate future' polled: Ok(Ready(3))".to_string()]);
    assert_eq!(outcome, Outcome::Ready(3));
}

#[test]
fn chain_of_three_stages_logs_six_lines() {
    let sink = Rc::new(RefCell::new(Vec::new()));
    let first = Traced {
        logged: LoggingExt::inspect(futures::future::ok::<i32, String>(3), "immediate future"),
        sink: sink.clone(),
    };
    let second = Traced {
        logged: LoggingExt::inspect(first.map(|i| i * 2), "mapped future"),
        sink: sink.clone(),
    };
    let third = Traced {
        logged: LoggingExt::inspect(
            second.and_then(|_| Err::<i32, String>("oops".to_string())),
            "failing future",
        ),
        sink: sink.clone(),
    };
    let result = third.wait();
    assert_eq!(result, Err("oops".to_string()));
    let expected: Vec<String> = vec![
        "Polling future `failing future'",
        "Polling future `mapped future'",
        "Polling future `immediate future'",
        "Future `immediate future' polled: Ok(Ready(3))",
        "Future `mapped future' polled: Ok(Ready(6))",
        "Future `failing future' polled: Err(\"oops\")",
    ]
    .into_iter()
    .map(|s| s.to_string())
    .collect();
    assert_eq!(*sink.borrow(), expected);
}

#[test]
fn full_lines_for_pending_and_error() {
    let w = LoggedFuture::new((), "job", false);
    let (o, after) = w.finish_poll(Outcome::<i32, String>::NotReady, show, show);
    assert_eq!(o, Outcome::NotReady);
    assert_eq!(texts(&after), vec!["Future `job' polled: Ok(NotReady)".to_string()]);
    let (o, after) = w.finish_poll(Outcome::<i32, String>::Errored("bad".to_string()), show, show);
    assert_eq!(o, Outcome::Errored("bad".to_string()));
    assert_eq!(texts(&after), vec!["Future `job' polled: Err(\"bad\")".to_string()]);
}

#[test]
fn every_line_goes_to_the_channel() {
    let w = LoggedFuture::new((), "job", false);
    let before = w.polling_lines();
    let (_, after) = w.finish_poll(Outcome::<i32, String>::Ready(1), show, show);
    assert_eq!(before.len() + after.len(), 2);
    for l in before.iter().chain(after.iter()) {
        assert_eq!(l.channel, "futures_log");
        assert!(l.message.contains("`job'"));
    }
}

#[test]
fn simple_lines_have_three_shapes() {
    let w = LoggingExtSimple::inspect_simple((), "task");
    let before = w.polling_lines();
    assert_eq!(texts(&before), vec!["Polling future `task'".to_string()]);
    let (o, after) = w.finish_poll(Outcome::<Opaque, String>::Ready(Opaque(1)), show);
    assert!(matches!(o, Outcome::Ready(Opaque(1))));
    assert_eq!(texts(&after), vec!["Future `task' polled and is ready".to_string()]);
    let (o, after) = w.finish_poll(Outcome::<Opaque, String>::NotReady, show);
    assert!(matches!(o, Outcome::NotReady));
    assert_eq!(texts(&after), vec!["Future `task' polled and is not ready".to_string()]);
    let (o, after) = w.finish_poll(Outcome::<Opaque, String>::Errored("bad".to_string()), show);
    assert!(matches!(o, Outcome::Errored(ref e) if e == "bad"));
    assert_eq!(texts(&after), vec!["Future `task' polled and errored \"bad\"".to_string()]);
    assert_eq!(after[0].channel, "futures_log");
}

#[test]
fn silenced_decorators_log_nothing() {
    let mut w = LoggedFuture::new(futures::future::ok::<i32, String>(5), "quiet", true);
    assert!(w.polling_lines().is_empty());
    let polled = w.future_mut().poll();
    let (o, after) = w.finish_poll(outcome_of(polled), show, show);
    assert!(after.is_empty());
    assert_eq!(o, Outcome::Ready(5));

    let s = LoggedFutureSimple::new(4u8, "quiet", true);
    assert!(s.polling_lines().is_empty());
    let (o, after) = s.finish_poll(Outcome::<Opaque, String>::Errored("x".to_string()), show);
    assert!(after.is_empty());
    assert!(matches!(o, Outcome::Errored(ref e) if e == "x"));
    assert_eq!(s.into_inner(), 4u8);
}

#[test]
fn decorated_unit_gives_what_the_unit_gives() {
    let mut plain = Later { polled: false };
    let direct = vec![plain.poll(), plain.poll()];

    let mut w = LoggingExt::inspect(Later { polled: false }, "later");
    let mut through = Vec::new();
    let mut all_lines = Vec::new();
    for _ in 0..2 {
        all_lines.extend(texts(&w.polling_lines()));
        let polled = w.future_mut().poll();
        let (o, after) = w.finish_poll(outcome_of(polled), show, show);
        all_lines.extend(texts(&after));
        through.push(poll_of(o));
    }
    assert_eq!(through, direct);
    assert_eq!(through[1], Ok(Async::Ready(7)));
    assert_eq!(
        all_lines,
        vec![
            "Polling future `later'".to_string(),
            "Future `later' polled: Ok(NotReady)".to_string(),
            "Polling future `later'".to_string(),
            "Future `later' polled: Ok(Ready(7))".to_string(),
        ]
    );
    assert!(w.into_inner().polled);
}

#[test]
fn empty_label_is_kept() {
    let w = LoggedFutureSimple::new((), "", false);
    assert_eq!(texts(&w.polling_lines()), vec!["Polling future `'".to_string()]);
}
