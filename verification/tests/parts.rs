use linefmt::config::{is_shown, Config, DEFAULT_TIME_FORMAT};
use linefmt::layout::{level_text, location_text, message_text, target_text, time_text};
use linefmt::severity::Severity;
use linefmt::sink::{BoundedSink, Exhausted, Journal, MemorySink, Sink};
use linefmt::text::{append_decimal, decimal_text, digit_text};

#[test]
fn severities_are_ordered_from_verbose_to_serious() {
    assert!(Severity::Trace < Severity::Debug);
    assert!(Severity::Debug < Severity::Info);
    assert!(Severity::Info < Severity::Warn);
    assert!(Severity::Warn < Severity::Error);
    assert_eq!(Severity::Trace.ordinal(), 0);
    assert_eq!(Severity::Error.ordinal(), 4);
}

#[test]
fn at_most_agrees_with_the_order() {
    let levels =
        [Severity::Trace, Severity::Debug, Severity::Info, Severity::Warn, Severity::Error];
    for a in levels.iter() {
        for b in levels.iter() {
            assert_eq!(a.at_most(b), a <= b);
            assert_eq!(a.at_most(b), a.ordinal() <= b.ordinal());
        }
    }
}

#[test]
fn severity_names() {
    assert_eq!(Severity::Trace.as_str(), "TRACE");
    assert_eq!(Severity::Debug.as_str(), "DEBUG");
    assert_eq!(Severity::Info.as_str(), "INFO");
    assert_eq!(Severity::Warn.as_str(), "WARN");
    assert_eq!(Severity::Error.as_str(), "ERROR");
}

#[test]
fn thresholds() {
    assert!(!is_shown(&None, &Severity::Error));
    assert!(!is_shown(&None, &Severity::Trace));
    assert!(is_shown(&Some(Severity::Info), &Severity::Info));
    assert!(is_shown(&Some(Severity::Info), &Severity::Warn));
    assert!(!is_shown(&Some(Severity::Info), &Severity::Debug));
    assert!(is_shown(&Some(Severity::Trace), &Severity::Trace));
    assert!(!is_shown(&Some(Severity::Error), &Severity::Warn));
}

#[test]
fn time_pattern_defaults() {
    let mut cfg =
        Config { time: None, level: None, target: None, location: None, time_format: None };
    assert_eq!(DEFAULT_TIME_FORMAT, "%H:%M:%S");
    assert_eq!(cfg.time_pattern(), "%H:%M:%S");
    cfg.time_format = Some("%d/%m");
    assert_eq!(cfg.time_pattern(), "%d/%m");
}

#[test]
fn decimal_numbers() {
    assert_eq!(decimal_text(0), "0");
    assert_eq!(decimal_text(7), "7");
    assert_eq!(decimal_text(10), "10");
    assert_eq!(decimal_text(42), "42");
    assert_eq!(decimal_text(1009), "1009");
    assert_eq!(decimal_text(u32::MAX), "4294967295");
    let mut buf = String::from("line ");
    append_decimal(&mut buf, 120);
    assert_eq!(buf, "line 120");
    for d in 0..10u32 {
        assert_eq!(digit_text(d), d.to_string());
    }
}

#[test]
fn field_texts() {
    assert_eq!(time_text("14:03:22"), "14:03:22 ");
    assert_eq!(level_text(&Severity::Info), "[INFO] ");
    assert_eq!(target_text("mymodule"), "mymodule: ");
    assert_eq!(location_text("main.src", 42), "[main.src:42] ");
    assert_eq!(location_text("", 0), "[:0] ");
    assert_eq!(message_text("something happened"), "something happened\n");
}

#[test]
fn memory_sink_keeps_what_it_is_given() {
    let mut sink = MemorySink::new();
    assert_eq!(sink.as_str(), "");
    assert_eq!(sink.write_text("ab"), Ok(()));
    assert_eq!(sink.flush(), Ok(()));
    assert_eq!(sink.write_text("cd"), Ok(()));
    assert_eq!(sink.as_str(), "abcd");
}

#[test]
fn bounded_sink_fails_when_its_allowance_is_used_up() {
    let mut sink = BoundedSink::new(2);
    assert_eq!(sink.remaining(), 2);
    assert_eq!(sink.write_text("ab"), Ok(()));
    assert_eq!(sink.flush(), Ok(()));
    assert_eq!(sink.remaining(), 0);
    assert_eq!(sink.write_text("cd"), Err(Exhausted));
    assert_eq!(sink.flush(), Err(Exhausted));
    assert_eq!(sink.as_str(), "ab");
}

#[test]
fn journal_hands_each_call_to_its_sink() {
    let mut journal = Journal::new(BoundedSink::new(3));
    assert_eq!(journal.write_text("ab"), Ok(()));
    assert_eq!(journal.flush(), Ok(()));
    assert_eq!(journal.write_text("cd"), Ok(()));
    assert_eq!(journal.write_text("ef"), Err(Exhausted));
    assert_eq!(journal.flush(), Err(Exhausted));
    assert_eq!(journal.inner().as_str(), "abcd");
    let sink = journal.into_inner();
    assert_eq!(sink.as_str(), "abcd");
    assert_eq!(sink.remaining(), 0);
}
