use vstd::prelude::*;
use crate::clock::{render_utc, utc_now, utc_text};
use crate::config::{admits, is_shown, Config};
use crate::layout::{
    lemma_prefix_of_line, lemma_writes_grow, level_field, level_text, line_prefix, line_text,
    location_field, location_text, message_field, message_text, step_shown, step_text,
    target_field, target_text, time_field, time_text, writes_before,
};
use crate::record::LogRecord;
use crate::sink::{affords, spent, Journal, Sink};

verus! {

/// Why a line could not be written.
#[derive(Debug, PartialEq, Eq)]
pub enum LogError<E> {
    /// The time pattern could not be rendered; nothing was written.
    TimeFormat,
    /// The sink failed; this is its error, as it returned it.
    Sink(E),
}

/// A journal that a call left as it was, history and sink.
pub open spec fn untouched<W: Sink>(after: Journal<W>, before: Journal<W>) -> bool {
    &&& after.accepted() == before.accepted()
    &&& after.flushed() == before.flushed()
    &&& after.failures() == before.failures()
    &&& after.sink() == before.sink()
}

/// A line that has come as far as its first `k` steps: the journal has
/// accepted that much of it, and a modelled sink holds that much more text.
pub open spec fn progress<W: Sink>(
    after: Journal<W>,
    before: Journal<W>,
    config: &Config,
    record: &LogRecord,
    clock: Seq<char>,
    k: int,
) -> bool {
    &&& after.accepted() == before.accepted() + line_prefix(config, record, clock, k)
    &&& before.sink().modelled() ==> after.sink().modelled() && after.sink().text()
        == before.sink().text() + line_prefix(config, record, clock, k)
}

/// A journal after a whole line: all five steps are done, all that is accepted
/// is flushed, and the sink has returned no error. A modelled sink had the
/// allowance for one operation to each step that writes and one to the flush,
/// and has that many less.
pub open spec fn logged<W: Sink>(
    after: Journal<W>,
    before: Journal<W>,
    config: &Config,
    record: &LogRecord,
    clock: Seq<char>,
) -> bool {
    let uses = writes_before(config, record.level, 5) + 1;
    &&& progress(after, before, config, record, clock, 5)
    &&& after.flushed() == after.accepted()
    &&& after.failures() == before.failures()
    &&& before.sink().modelled() ==> affords(before.sink().allowance(), uses)
        && after.sink().allowance() == spent(before.sink().allowance(), uses)
}

/// A journal after a line that the sink cut short with the error `e`: the sink
/// has returned that error and no other, nothing more is flushed, and the line
/// has come as far as the steps before the failing one took it and no
/// further. The failing step `k` is one that writes, or it is 5, which is the
/// flush. A modelled sink had the allowance for the writes before that step
/// and for no more.
pub open spec fn cut_short<W: Sink>(
    after: Journal<W>,
    before: Journal<W>,
    config: &Config,
    record: &LogRecord,
    clock: Seq<char>,
    e: W::Failure,
) -> bool {
    &&& after.failures() == before.failures().push(e)
    &&& after.flushed() == before.flushed()
    &&& exists|k: int|
        0 <= k <= 5 && (k < 5 ==> step_shown(config, record.level, k)) && #[trigger] progress(
            after,
            before,
            config,
            record,
            clock,
            k,
        ) && (before.sink().modelled() ==> before.sink().allowance() == Some(
            writes_before(config, record.level, k),
        ) && after.sink().allowance() == Some(0nat))
}

/// The text that a clock's answer stands for in a line: its own, or no
/// character where there is none.
pub open spec fn clock_chars(clock: Option<Seq<char>>) -> Seq<char> {
    match clock {
        Some(text) => text,
        None => Seq::empty(),
    }
}

/// What a line makes of a journal, given what the clock said (`None`: the
/// time could not be rendered). Where the time is shown and there is no text
/// of it, the call fails with `TimeFormat` and touches nothing, and it fails
/// so in no other case. Otherwise the line is written whole or cut short by
/// the sink; a clock that is not shown, or not there, counts as no character.
pub open spec fn log_outcome<W: Sink>(
    after: Journal<W>,
    before: Journal<W>,
    config: &Config,
    record: &LogRecord,
    clock: Option<Seq<char>>,
    r: Result<(), LogError<W::Failure>>,
) -> bool {
    if admits(config.time, record.level) && clock is None {
        r matches Err(LogError::TimeFormat) && untouched(after, before)
    } else {
        match r {
            Ok(_) => logged(after, before, config, record, clock_chars(clock)),
            Err(LogError::TimeFormat) => false,
            Err(LogError::Sink(e)) => cut_short(
                after,
                before,
                config,
                record,
                clock_chars(clock),
                e,
            ),
        }
    }
}

/// What the time field makes of a journal, given what the clock said: without
/// a text the call fails with `TimeFormat` and touches nothing; with one, the
/// field is written in one write, and the sink's error comes back as it is.
pub open spec fn time_outcome<W: Sink>(
    after: Journal<W>,
    before: Journal<W>,
    clock: Option<Seq<char>>,
    r: Result<(), LogError<W::Failure>>,
) -> bool {
    match clock {
        None => r matches Err(LogError::TimeFormat) && untouched(after, before),
        Some(text) => match r {
            Ok(_) => after.after_write(before, time_field(text), Ok(())),
            Err(LogError::TimeFormat) => false,
            Err(LogError::Sink(e)) => after.after_write(before, time_field(text), Err(e)),
        },
    }
}

/// Over a modelled sink the outcome of a line is decided beforehand, given
/// what the clock said: the line is written whole exactly where the time, if
/// shown, has a text and the allowance lets every write and the flush
/// succeed; the sink then holds the whole line behind what it held. Where the
/// sink cuts the line short, it holds a beginning of the line and has no
/// allowance left.
pub proof fn lemma_outcome_decided<W: Sink>(
    after: Journal<W>,
    before: Journal<W>,
    config: &Config,
    record: &LogRecord,
    clock: Option<Seq<char>>,
    r: Result<(), LogError<W::Failure>>,
)
    requires
        before.sink().modelled(),
        log_outcome(after, before, config, record, clock, r),
    ensures
        r is Ok <==> !(admits(config.time, record.level) && clock is None) && affords(
            before.sink().allowance(),
            writes_before(config, record.level, 5) + 1,
        ),
        r is Ok ==> after.sink().text() == before.sink().text() + line_text(
            config,
            record,
            clock_chars(clock),
        ),
        r matches Err(LogError::Sink(_)) ==> after.sink().allowance() == Some(0nat) && exists|
            k: int,
        |
            0 <= k <= 5 && after.sink().text() == before.sink().text() + #[trigger] line_prefix(
                config,
                record,
                clock_chars(clock),
                k,
            ),
{
    let text = clock_chars(clock);
    match r {
        Err(LogError::Sink(e)) => {
            let k = choose|k: int|
                0 <= k <= 5 && (k < 5 ==> step_shown(config, record.level, k))
                    && #[trigger] progress(after, before, config, record, text, k) && (
                before.sink().modelled() ==> before.sink().allowance() == Some(
                    writes_before(config, record.level, k),
                ) && after.sink().allowance() == Some(0nat));
            lemma_writes_grow(config, record.level, k, 5);
            assert(after.sink().text() == before.sink().text() + line_prefix(
                config,
                record,
                text,
                k,
            ));
        },
        _ => {},
    }
}

/// The view of a clock's text, where there is one.
pub open spec fn said(clock: Option<&str>) -> Option<Seq<char>> {
    match clock {
        Some(text) => Some(text@),
        None => None,
    }
}

/// The text of the time at a given instant of UTC, `secs` seconds and `nanos`
/// nanoseconds after the Unix epoch, by the configuration's pattern, or the
/// default pattern where it names none. `None` where it cannot be rendered.
pub fn clock_at(config: &Config, secs: i64, nanos: u32) -> (r: Option<String>)
    ensures
        match r {
            Some(text) => utc_text(secs as int, nanos as int, config.pattern()) == Some(text@),
            None => utc_text(secs as int, nanos as int, config.pattern()) is None,
        },
{
    render_utc(secs, nanos, config.time_pattern())
}

/// Writes the time field with `clock` as the text of the time.
pub fn write_clock<W: Sink>(clock: &str, write: &mut Journal<W>) -> (r: Result<(), W::Failure>)
    ensures
        (*final(write)).after_write(*old(write), time_field(clock@), r),
{
    let field = time_text(clock);
    write.write_text(field.as_str())
}

/// Writes the time field, given what the clock said.
pub fn write_time_at<W: Sink>(write: &mut Journal<W>, clock: Option<&str>) -> (r: Result<
    (),
    LogError<W::Failure>,
>)
    ensures
        time_outcome(*final(write), *old(write), said(clock), r),
{
    match clock {
        None => Err(LogError::TimeFormat),
        Some(text) => {
            match write_clock(text, write) {
                Ok(()) => Ok(()),
                Err(e) => Err(LogError::Sink(e)),
            }
        },
    }
}

/// Writes the time field: the wall clock in UTC at the moment of the call, by
/// the configuration's pattern or the default one. The moment is not known
/// beforehand, so the outcome is stated for some instant: it is that of
/// `write_time_at` with the text of that instant.
pub fn write_time<W: Sink>(write: &mut Journal<W>, config: &Config) -> (r: Result<
    (),
    LogError<W::Failure>,
>)
    ensures
        exists|secs: i64, nanos: u32|
            time_outcome(
                *final(write),
                *old(write),
                #[trigger] utc_text(secs as int, nanos as int, config.pattern()),
                r,
            ),
{
    let (secs, nanos): (i64, u32) = utc_now();
    let clock = clock_at(config, secs, nanos);
    let r = match &clock {
        Some(text) => write_time_at(write, Some(text.as_str())),
        None => write_time_at(write, None),
    };
    assert(time_outcome(
        *write,
        *old(write),
        utc_text(secs as int, nanos as int, config.pattern()),
        r,
    ));
    r
}

/// Writes the level field of a record.
pub fn write_level<W: Sink>(record: &LogRecord, write: &mut Journal<W>) -> (r: Result<
    (),
    W::Failure,
>)
    ensures
        (*final(write)).after_write(*old(write), level_field(record.level), r),
{
    let field = level_text(&record.level);
    write.write_text(field.as_str())
}

/// Writes the target field of a record.
pub fn write_target<W: Sink>(record: &LogRecord, write: &mut Journal<W>) -> (r: Result<
    (),
    W::Failure,
>)
    ensures
        (*final(write)).after_write(*old(write), target_field(record.target@), r),
{
    let field = target_text(record.target.as_str());
    write.write_text(field.as_str())
}

/// Writes the location field of a record.
pub fn write_location<W: Sink>(record: &LogRecord, write: &mut Journal<W>) -> (r: Result<
    (),
    W::Failure,
>)
    ensures
        (*final(write)).after_write(
            *old(write),
            location_field(record.location.file@, record.location.line as nat),
            r,
        ),
{
    let field = location_text(record.location.file.as_str(), record.location.line);
    write.write_text(field.as_str())
}

/// Writes the message of a record and a line feed.
pub fn write_args<W: Sink>(record: &LogRecord, write: &mut Journal<W>) -> (r: Result<
    (),
    W::Failure,
>)
    ensures
        (*final(write)).after_write(*old(write), message_field(record.args@), r),
{
    let field = message_text(record.args.as_str());
    write.write_text(field.as_str())
}

/// The line at its start: no step done.
proof fn lemma_start<W: Sink>(
    before: Journal<W>,
    config: &Config,
    record: &LogRecord,
    clock: Seq<char>,
)
    ensures
        underway(before, before, config, record, clock, 0),
{
    lemma_prefix_of_line(config, record, clock, 0);
    assert(before.accepted() =~= before.accepted() + line_prefix(config, record, clock, 0));
    assert(before.sink().text() =~= before.sink().text() + line_prefix(config, record, clock, 0));
}

/// A line on its way: `k` steps are done without a failure and nothing is
/// flushed yet.
spec fn underway<W: Sink>(
    now: Journal<W>,
    before: Journal<W>,
    config: &Config,
    record: &LogRecord,
    clock: Seq<char>,
    k: int,
) -> bool {
    &&& progress(now, before, config, record, clock, k)
    &&& now.flushed() == before.flushed()
    &&& now.failures() == before.failures()
    &&& before.sink().modelled() ==> affords(
        before.sink().allowance(),
        writes_before(config, record.level, k),
    ) && now.sink().allowance() == spent(
        before.sink().allowance(),
        writes_before(config, record.level, k),
    )
}

/// A step that writes nothing takes the line one step on as it stands.
proof fn lemma_skip<W: Sink>(
    now: Journal<W>,
    before: Journal<W>,
    config: &Config,
    record: &LogRecord,
    clock: Seq<char>,
    k: int,
)
    requires
        0 <= k < 5,
        !step_shown(config, record.level, k),
        underway(now, before, config, record, clock, k),
    ensures
        underway(now, before, config, record, clock, k + 1),
{
    lemma_prefix_of_line(config, record, clock, k);
    let next = line_prefix(config, record, clock, k + 1);
    assert(next =~= line_prefix(config, record, clock, k));
}

/// A step that writes takes the line one step on where the write succeeds, and
/// cuts it short at this step where it fails.
proof fn lemma_step<W: Sink>(
    after: Journal<W>,
    now: Journal<W>,
    before: Journal<W>,
    config: &Config,
    record: &LogRecord,
    clock: Seq<char>,
    k: int,
    r: Result<(), W::Failure>,
)
    requires
        0 <= k < 5,
        step_shown(config, record.level, k),
        underway(now, before, config, record, clock, k),
        after.after_write(now, step_text(config, record, clock, k), r),
    ensures
        match r {
            Ok(_) => underway(after, before, config, record, clock, k + 1),
            Err(e) => cut_short(after, before, config, record, clock, e),
        },
{
    lemma_prefix_of_line(config, record, clock, k);
    let here = line_prefix(config, record, clock, k);
    let field = step_text(config, record, clock, k);
    match r {
        Ok(_) => {
            assert(after.accepted() =~= before.accepted() + (here + field));
            if before.sink().modelled() {
                assert(after.sink().text() =~= before.sink().text() + (here + field));
            }
        },
        Err(e) => {
            assert(progress(after, before, config, record, clock, k));
        },
    }
}

/// The flush behind the fifth step ends the line: whole where it succeeds, cut
/// short at the flush where it fails.
proof fn lemma_flush<W: Sink>(
    after: Journal<W>,
    now: Journal<W>,
    before: Journal<W>,
    config: &Config,
    record: &LogRecord,
    clock: Seq<char>,
    r: Result<(), W::Failure>,
)
    requires
        underway(now, before, config, record, clock, 5),
        after.after_flush(now, r),
    ensures
        match r {
            Ok(_) => logged(after, before, config, record, clock),
            Err(e) => cut_short(after, before, config, record, clock, e),
        },
{
    if before.sink().modelled() {
        assert(after.sink().text() =~= now.sink().text());
    }
    match r {
        Ok(_) => {},
        Err(e) => {
            assert(progress(after, before, config, record, clock, 5));
        },
    }
}

/// Runs the five steps on a sink with `clock` as the text of the time, then
/// flushes, and stops at the first failure.
fn write_steps<W: Sink>(
    config: &Config,
    record: &LogRecord,
    clock: &str,
    write: &mut Journal<W>,
) -> (r: Result<(), W::Failure>)
    ensures
        match r {
            Ok(_) => logged(*final(write), *old(write), config, record, clock@),
            Err(e) => cut_short(*final(write), *old(write), config, record, clock@, e),
        },
{
    let ghost before = *old(write);
    proof {
        lemma_start(before, config, record, clock@);
    }
    if is_shown(&config.time, &record.level) {
        let ghost now = *write;
        let r = write_clock(clock, write);
        proof {
            lemma_step(*write, now, before, config, record, clock@, 0, r);
        }
        match r {
            Ok(()) => {},
            Err(e) => {
                return Err(e);
            },
        }
    } else {
        proof {
            lemma_skip(*write, before, config, record, clock@, 0);
        }
    }
    if is_shown(&config.level, &record.level) {
        let ghost now = *write;
        let r = write_level(record, write);
        proof {
            lemma_step(*write, now, before, config, record, clock@, 1, r);
        }
        match r {
            Ok(()) => {},
            Err(e) => {
                return Err(e);
            },
        }
    } else {
        proof {
            lemma_skip(*write, before, config, record, clock@, 1);
        }
    }
    if is_shown(&config.target, &record.level) {
        let ghost now = *write;
        let r = write_target(record, write);
        proof {
            lemma_step(*write, now, before, config, record, clock@, 2, r);
        }
        match r {
            Ok(()) => {},
            Err(e) => {
                return Err(e);
            },
        }
    } else {
        proof {
            lemma_skip(*write, before, config, record, clock@, 2);
        }
    }
    if is_shown(&config.location, &record.level) {
        let ghost now = *write;
        let r = write_location(record, write);
        proof {
            lemma_step(*write, now, before, config, record, clock@, 3, r);
        }
        match r {
            Ok(()) => {},
            Err(e) => {
                return Err(e);
            },
        }
    } else {
        proof {
            lemma_skip(*write, before, config, record, clock@, 3);
        }
    }
    let ghost now = *write;
    let r = write_args(record, write);
    proof {
        lemma_step(*write, now, before, config, record, clock@, 4, r);
    }
    match r {
        Ok(()) => {},
        Err(e) => {
            return Err(e);
        },
    }
    let ghost now = *write;
    let r = write.flush();
    proof {
        lemma_flush(*write, now, before, config, record, clock@, r);
    }
    r
}

/// Writes the line of a record, given what the clock said: one write for each
/// field that is shown, in the order time, level, target, location, message,
/// and then a flush.
///
/// `clock` is the text of the time, or `None` where it could not be rendered.
/// Where the time is shown and there is no text, the call fails with
/// `TimeFormat` and leaves the sink untouched, and it fails so in no other
/// case. Otherwise, on success the sink has accepted the whole line and
/// flushed it, and the first write or flush that fails ends the call with the
/// sink's error and the line cut short there. Over a modelled sink the
/// allowance decides which of the two it is, and at which step.
pub fn try_log_at<W: Sink>(
    config: &Config,
    record: &LogRecord,
    clock: Option<&str>,
    write: &mut Journal<W>,
) -> (r: Result<(), LogError<W::Failure>>)
    ensures
        log_outcome(*final(write), *old(write), config, record, said(clock), r),
{
    let text = match clock {
        Some(text) => text,
        None => {
            if is_shown(&config.time, &record.level) {
                return Err(LogError::TimeFormat);
            }
            ""
        },
    };
    proof {
        reveal_strlit("");
        assert(clock is None ==> text@ =~= Seq::<char>::empty());
    }
    match write_steps(config, record, text, write) {
        Ok(()) => Ok(()),
        Err(e) => Err(LogError::Sink(e)),
    }
}

/// Writes the line of a record to a sink and flushes it. Where the time is
/// shown, it is the wall clock in UTC at the moment of the call, by the
/// configuration's pattern or the default one; where it is not shown, the
/// clock is not read.
///
/// Where the time is shown, the moment is not known beforehand, so the outcome
/// is stated for some instant: it is that of `try_log_at` with the text of
/// that instant. Where the time is not shown, the outcome is that of
/// `try_log_at` without a clock.
pub fn try_log<W: Sink>(config: &Config, record: &LogRecord, write: &mut Journal<W>) -> (r: Result<
    (),
    LogError<W::Failure>,
>)
    ensures
        admits(config.time, record.level) ==> exists|secs: i64, nanos: u32|
            log_outcome(
                *final(write),
                *old(write),
                config,
                record,
                #[trigger] utc_text(secs as int, nanos as int, config.pattern()),
                r,
            ),
        !admits(config.time, record.level) ==> log_outcome(
            *final(write),
            *old(write),
            config,
            record,
            None,
            r,
        ),
{
    if is_shown(&config.time, &record.level) {
        let (secs, nanos): (i64, u32) = utc_now();
        let clock = clock_at(config, secs, nanos);
        let r = match &clock {
            Some(text) => try_log_at(config, record, Some(text.as_str()), write),
            None => try_log_at(config, record, None, write),
        };
        assert(log_outcome(
            *write,
            *old(write),
            config,
            record,
            utc_text(secs as int, nanos as int, config.pattern()),
            r,
        ));
        r
    } else {
        try_log_at(config, record, None, write)
    }
}

} // verus!
