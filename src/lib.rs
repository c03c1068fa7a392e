//! Poll-by-poll logging for asynchronous computation units.
//!
//! A unit is decorated with a label. Each time its scheduler polls the
//! decorated unit, one line is logged before the wrapped unit is polled and one
//! after, with the outcome; the outcome itself is handed back untouched. A
//! silenced decorator logs nothing at all.
//!
//! The library decides what is logged and proves that the outcome is
//! forwarded. Polling the wrapped unit and handing lines to a logger are left
//! to the caller, which runs them in the order the library gives.

pub mod laws;
pub mod logged;
pub mod message;
pub mod outcome;

pub use logged::{LoggedFuture, LoggedFutureSimple, LoggingExt, LoggingExtSimple};
pub use message::LogLine;
pub use outcome::Outcome;
