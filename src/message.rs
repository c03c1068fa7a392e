use vstd::prelude::*;

verus! {

/// One log record: the channel it goes to and its text. Every record is
/// emitted at debug severity.
pub struct LogLine {
    pub channel: String,
    pub message: String,
}

/// The channel that every line of this library goes to.
pub open spec fn channel() -> Seq<char> {
    "futures_log"@
}

/// The line logged before the wrapped unit is polled.
pub open spec fn polling_text(label: Seq<char>) -> Seq<char> {
    "Polling future `"@ + label + "'"@
}

/// How a full-detail line shows a poll that gave no result yet.
pub open spec fn not_ready_text() -> Seq<char> {
    "Ok(NotReady)"@
}

/// How a full-detail line shows a value, from the value's own text.
pub open spec fn ready_text(shown: Seq<char>) -> Seq<char> {
    "Ok(Ready("@ + shown + "))"@
}

/// How a full-detail line shows an error, from the error's own text.
pub open spec fn errored_text(shown: Seq<char>) -> Seq<char> {
    "Err("@ + shown + ")"@
}

/// The full-detail line logged after the wrapped unit was polled.
pub open spec fn polled_text(label: Seq<char>, outcome: Seq<char>) -> Seq<char> {
    "Future `"@ + label + "' polled: "@ + outcome
}

/// The error-only line for a poll that gave a value.
pub open spec fn ready_simple_text(label: Seq<char>) -> Seq<char> {
    "Future `"@ + label + "' polled and is ready"@
}

/// The error-only line for a poll that gave no result yet.
pub open spec fn not_ready_simple_text(label: Seq<char>) -> Seq<char> {
    "Future `"@ + label + "' polled and is not ready"@
}

/// The error-only line for a poll that gave an error, from the error's text.
pub open spec fn errored_simple_text(label: Seq<char>, shown: Seq<char>) -> Seq<char> {
    "Future `"@ + label + "' polled and errored "@ + shown
}

/// `lines` is exactly one record on the channel for each text, in order.
pub open spec fn emits(lines: Seq<LogLine>, texts: Seq<Seq<char>>) -> bool {
    &&& lines.len() == texts.len()
    &&& forall|i: int|
        0 <= i < lines.len() ==> (#[trigger] lines[i]).channel@ == channel() && lines[i].message@
            == texts[i]
}

pub fn line(message: String) -> (r: LogLine)
    ensures
        r.channel@ == channel(),
        r.message == message,
{
    LogLine { channel: String::from_str("futures_log"), message }
}

fn labelled(prefix: &str, label: &String, suffix: &str) -> (r: String)
    ensures
        r@ == prefix@ + label@ + suffix@,
{
    let s = String::from_str(prefix);
    let s = s.concat(label.as_str());
    s.concat(suffix)
}

pub fn polled_message(label: &String, outcome: &String) -> (r: String)
    ensures
        r@ == polled_text(label@, outcome@),
{
    let s = labelled("Future `", label, "' polled: ");
    s.concat(outcome.as_str())
}

pub fn not_ready_message() -> (r: String)
    ensures
        r@ == not_ready_text(),
{
    String::from_str("Ok(NotReady)")
}

pub fn ready_message(shown: &String) -> (r: String)
    ensures
        r@ == ready_text(shown@),
{
    let s = String::from_str("Ok(Ready(");
    let s = s.concat(shown.as_str());
    s.concat("))")
}

pub fn errored_message(shown: &String) -> (r: String)
    ensures
        r@ == errored_text(shown@),
{
    let s = String::from_str("Err(");
    let s = s.concat(shown.as_str());
    s.concat(")")
}

pub fn ready_simple_message(label: &String) -> (r: String)
    ensures
        r@ == ready_simple_text(label@),
{
    labelled("Future `", label, "' polled and is ready")
}

pub fn not_ready_simple_message(label: &String) -> (r: String)
    ensures
        r@ == not_ready_simple_text(label@),
{
    labelled("Future `", label, "' polled and is not ready")
}

pub fn errored_simple_message(label: &String, shown: &String) -> (r: String)
    ensures
        r@ == errored_simple_text(label@, shown@),
{
    let s = labelled("Future `", label, "' polled and errored ");
    s.concat(shown.as_str())
}

pub fn polling_message(label: &String) -> (r: String)
    ensures
        r@ == polling_text(label@),
{
    labelled("Polling future `", label, "'")
}

} // verus!
