use vstd::prelude::*;
use std::fmt::Write;

verus! {

/// The text of an instant of UTC under a strftime-style pattern, as chrono
/// renders it: the instant is `secs` whole seconds and `nanos` nanoseconds
/// after the Unix epoch. `None` where chrono knows no such instant or reports
/// that the pattern cannot be rendered.
pub uninterp spec fn utc_text(secs: int, nanos: int, pattern: Seq<char>) -> Option<Seq<char>>;

/// Reads the wall clock: `chrono::Utc::now`, as whole seconds since the Unix
/// epoch (`DateTime::timestamp`) and the nanoseconds behind them
/// (`DateTime::timestamp_subsec_nanos`). Nothing is claimed of the reading.
/// chrono panics where the system clock stands before the Unix epoch.
#[verifier::external_body]
pub(crate) fn utc_now() -> (r: (i64, u32)) {
    let now = chrono::Utc::now();
    (now.timestamp(), now.timestamp_subsec_nanos())
}

/// Renders an instant of UTC: `chrono::DateTime::from_timestamp`, then
/// `DateTime::format` with the pattern, written into a fresh `String`. The
/// contract only names the text: it is `utc_text` of the three arguments, and
/// `None` where chrono gives no instant or a formatting error.
#[verifier::external_body]
pub(crate) fn render_utc(secs: i64, nanos: u32, pattern: &str) -> (r: Option<String>)
    ensures
        match r {
            Some(text) => utc_text(secs as int, nanos as int, pattern@) == Some(text@),
            None => utc_text(secs as int, nanos as int, pattern@) is None,
        },
{
    match chrono::DateTime::from_timestamp(secs, nanos) {
        None => None,
        Some(instant) => {
            let mut text = String::new();
            match write!(text, "{}", instant.format(pattern)) {
                Ok(()) => Some(text),
                Err(_) => None,
            }
        },
    }
}

} // verus!
