//! A log-line formatter. One record becomes one line of text: the time, the
//! level, the target and the location, each shown only where its own severity
//! threshold admits the record, and then the message, which is always shown.
//!
//! `layout` says what a line is, `loggers::logging` writes it to a `Sink`
//! through a `Journal`, which keeps the history that the contracts speak of.

pub mod severity;
pub mod config;
pub mod record;
pub mod text;
pub mod layout;
pub mod sink;
pub mod clock;
pub mod loggers;
