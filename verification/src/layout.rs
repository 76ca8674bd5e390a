use vstd::prelude::*;
use crate::config::{admits, is_shown, Config};
use crate::record::LogRecord;
use crate::severity::Severity;
use crate::text::{append_decimal, decimal};

verus! {

/// The time field: the clock's text and one space.
pub open spec fn time_field(clock: Seq<char>) -> Seq<char> {
    clock + " "@
}

/// The level field: the severity's name in square brackets, and one space.
pub open spec fn level_field(level: Severity) -> Seq<char> {
    "["@ + level.name() + "] "@
}

/// The target field: the target, a colon and one space.
pub open spec fn target_field(target: Seq<char>) -> Seq<char> {
    target + ": "@
}

/// The location field: file, colon and line number in square brackets, and one space.
pub open spec fn location_field(file: Seq<char>, line: nat) -> Seq<char> {
    "["@ + file + ":"@ + decimal(line) + "] "@
}

/// The message field: the message and a line feed.
pub open spec fn message_field(args: Seq<char>) -> Seq<char> {
    args + "\n"@
}

/// A field as it stands in the line: whole where its threshold admits the
/// record's level, and nothing at all where it does not.
pub open spec fn gated(
    threshold: Option<Severity>,
    level: Severity,
    field: Seq<char>,
) -> Seq<char> {
    if admits(threshold, level) {
        field
    } else {
        Seq::empty()
    }
}

/// Whether a step writes anything: the message always, a field by its threshold.
pub open spec fn step_shown(config: &Config, level: Severity, step: int) -> bool {
    if step == 0 {
        admits(config.time, level)
    } else if step == 1 {
        admits(config.level, level)
    } else if step == 2 {
        admits(config.target, level)
    } else if step == 3 {
        admits(config.location, level)
    } else {
        step == 4
    }
}

/// What a step adds to the line. The steps run in the order time, level,
/// target, location, message.
pub open spec fn step_text(
    config: &Config,
    record: &LogRecord,
    clock: Seq<char>,
    step: int,
) -> Seq<char> {
    if step == 0 {
        gated(config.time, record.level, time_field(clock))
    } else if step == 1 {
        gated(config.level, record.level, level_field(record.level))
    } else if step == 2 {
        gated(config.target, record.level, target_field(record.target@))
    } else if step == 3 {
        gated(
            config.location,
            record.level,
            location_field(record.location.file@, record.location.line as nat),
        )
    } else if step == 4 {
        message_field(record.args@)
    } else {
        Seq::empty()
    }
}

/// The line as far as the first `steps` steps take it.
pub open spec fn line_prefix(
    config: &Config,
    record: &LogRecord,
    clock: Seq<char>,
    steps: int,
) -> Seq<char>
    decreases steps,
{
    if steps <= 0 {
        Seq::empty()
    } else {
        line_prefix(config, record, clock, steps - 1) + step_text(config, record, clock, steps - 1)
    }
}

/// How many of the first `steps` steps write.
pub open spec fn writes_before(config: &Config, level: Severity, steps: int) -> nat
    decreases steps,
{
    if steps <= 0 {
        0
    } else {
        writes_before(config, level, steps - 1) + if step_shown(config, level, steps - 1) {
            1nat
        } else {
            0nat
        }
    }
}

/// The whole line of a record under a configuration, with `clock` as the text
/// of the time.
pub open spec fn line_text(config: &Config, record: &LogRecord, clock: Seq<char>) -> Seq<char> {
    line_prefix(config, record, clock, 5)
}

/// The line without its time field.
pub open spec fn line_rest(config: &Config, record: &LogRecord) -> Seq<char> {
    gated(config.level, record.level, level_field(record.level)) + gated(
        config.target,
        record.level,
        target_field(record.target@),
    ) + gated(
        config.location,
        record.level,
        location_field(record.location.file@, record.location.line as nat),
    ) + message_field(record.args@)
}

/// Renders the time field.
pub fn time_text(clock: &str) -> (r: String)
    ensures
        r@ == time_field(clock@),
{
    let mut buf = String::new();
    buf.append(clock);
    buf.append(" ");
    assert(buf@ =~= time_field(clock@));
    buf
}

/// Renders the level field.
pub fn level_text(level: &Severity) -> (r: String)
    ensures
        r@ == level_field(*level),
{
    let mut buf = String::new();
    buf.append("[");
    buf.append(level.as_str());
    buf.append("] ");
    assert(buf@ =~= level_field(*level));
    buf
}

/// Renders the target field.
pub fn target_text(target: &str) -> (r: String)
    ensures
        r@ == target_field(target@),
{
    let mut buf = String::new();
    buf.append(target);
    buf.append(": ");
    assert(buf@ =~= target_field(target@));
    buf
}

/// Renders the location field.
pub fn location_text(file: &str, line: u32) -> (r: String)
    ensures
        r@ == location_field(file@, line as nat),
{
    let mut buf = String::new();
    buf.append("[");
    buf.append(file);
    buf.append(":");
    append_decimal(&mut buf, line);
    buf.append("] ");
    assert(buf@ =~= location_field(file@, line as nat));
    buf
}

/// Renders the message field.
pub fn message_text(args: &str) -> (r: String)
    ensures
        r@ == message_field(args@),
{
    let mut buf = String::new();
    buf.append(args);
    buf.append("\n");
    assert(buf@ =~= message_field(args@));
    buf
}

/// Renders the whole line with `clock` as the text of the time.
pub fn render_line(config: &Config, record: &LogRecord, clock: &str) -> (r: String)
    ensures
        r@ == line_text(config, record, clock@),
{
    let mut buf = String::new();
    if is_shown(&config.time, &record.level) {
        buf.append(time_text(clock).as_str());
    }
    if is_shown(&config.level, &record.level) {
        buf.append(level_text(&record.level).as_str());
    }
    if is_shown(&config.target, &record.level) {
        buf.append(target_text(record.target.as_str()).as_str());
    }
    if is_shown(&config.location, &record.level) {
        buf.append(location_text(record.location.file.as_str(), record.location.line).as_str());
    }
    buf.append(message_text(record.args.as_str()).as_str());
    proof {
        lemma_line_fields(config, record, clock@);
        assert(buf@ =~= line_text(config, record, clock@));
    }
    buf
}

/// The fields character by character: each ends in its own delimiter, a
/// space, `] `, `: `, `] ` and a line feed, and holds nothing else beside its
/// content and its brackets or colon.
pub proof fn lemma_field_characters(
    clock: Seq<char>,
    level: Severity,
    target: Seq<char>,
    file: Seq<char>,
    line: nat,
    args: Seq<char>,
)
    ensures
        time_field(clock) == clock.push(' '),
        level_field(level) == seq!['['] + level.name() + seq![']', ' '],
        target_field(target) == target + seq![':', ' '],
        location_field(file, line) == seq!['['] + file + seq![':'] + decimal(line) + seq![']', ' '],
        message_field(args) == args.push('\n'),
{
    reveal_strlit(" ");
    reveal_strlit("[");
    reveal_strlit("] ");
    reveal_strlit(": ");
    reveal_strlit(":");
    reveal_strlit("\n");
    assert(" "@ =~= seq![' ']);
    assert("["@ =~= seq!['[']);
    assert("] "@ =~= seq![']', ' ']);
    assert(": "@ =~= seq![':', ' ']);
    assert(":"@ =~= seq![':']);
    assert("\n"@ =~= seq!['\n']);
    assert(time_field(clock) =~= clock.push(' '));
    assert(message_field(args) =~= args.push('\n'));
}

/// The line is its five steps side by side: the time field under its own
/// threshold, then the rest, in which each field stands under its own threshold
/// and the message under none.
pub proof fn lemma_line_fields(config: &Config, record: &LogRecord, clock: Seq<char>)
    ensures
        line_text(config, record, clock) == gated(config.time, record.level, time_field(clock))
            + line_rest(config, record),
        line_text(config, record, clock) == step_text(config, record, clock, 0) + step_text(
            config,
            record,
            clock,
            1,
        ) + step_text(config, record, clock, 2) + step_text(config, record, clock, 3) + step_text(
            config,
            record,
            clock,
            4,
        ),
{
    reveal_with_fuel(line_prefix, 6);
    let whole = line_text(config, record, clock);
    assert(whole =~= gated(config.time, record.level, time_field(clock)) + line_rest(
        config,
        record,
    ));
    assert(whole =~= step_text(config, record, clock, 0) + step_text(config, record, clock, 1)
        + step_text(config, record, clock, 2) + step_text(config, record, clock, 3) + step_text(
        config,
        record,
        clock,
        4,
    ));
}

/// A present threshold admits exactly the levels that are not below it, an
/// absent one admits none; a field that is not admitted adds no character, and
/// one that is admitted stands whole.
pub proof fn lemma_gate(threshold: Option<Severity>, level: Severity, field: Seq<char>)
    ensures
        threshold matches Some(t) ==> (admits(threshold, level) <==> t.rank() <= level.rank()),
        threshold is None ==> !admits(threshold, level),
        admits(threshold, level) ==> gated(threshold, level, field) == field,
        !admits(threshold, level) ==> gated(threshold, level, field).len() == 0,
{
}

/// Each field goes by its own threshold alone: two configurations that agree on
/// one threshold give that field the same text, whatever the others hold.
pub proof fn lemma_fields_independent(
    a: &Config,
    b: &Config,
    record: &LogRecord,
    clock: Seq<char>,
)
    ensures
        a.time == b.time ==> step_text(a, record, clock, 0) == step_text(b, record, clock, 0),
        a.level == b.level ==> step_text(a, record, clock, 1) == step_text(b, record, clock, 1),
        a.target == b.target ==> step_text(a, record, clock, 2) == step_text(b, record, clock, 2),
        a.location == b.location ==> step_text(a, record, clock, 3) == step_text(
            b,
            record,
            clock,
            3,
        ),
        step_text(a, record, clock, 4) == step_text(b, record, clock, 4),
{
}

/// With every threshold at the most verbose severity, a record of any level
/// gets all five fields, each once, in the order time, level, target, location,
/// message.
pub proof fn lemma_all_fields_shown(config: &Config, record: &LogRecord, clock: Seq<char>)
    requires
        config.time == Some(Severity::Trace),
        config.level == Some(Severity::Trace),
        config.target == Some(Severity::Trace),
        config.location == Some(Severity::Trace),
    ensures
        line_text(config, record, clock) == time_field(clock) + level_field(record.level)
            + target_field(record.target@) + location_field(
            record.location.file@,
            record.location.line as nat,
        ) + message_field(record.args@),
{
    lemma_line_fields(config, record, clock);
}

/// With no threshold set, the line is the message and its line feed.
pub proof fn lemma_message_only(config: &Config, record: &LogRecord, clock: Seq<char>)
    requires
        config.time is None,
        config.level is None,
        config.target is None,
        config.location is None,
    ensures
        line_text(config, record, clock) == record.args@ + "\n"@,
{
    lemma_line_fields(config, record, clock);
    assert(line_text(config, record, clock) =~= record.args@ + "\n"@);
}

/// Two lines of one record under one configuration differ in the time field at
/// most: behind it they are the same text, and where the time is not shown they
/// are the same line.
pub proof fn lemma_only_time_varies(
    config: &Config,
    record: &LogRecord,
    first: Seq<char>,
    second: Seq<char>,
)
    ensures
        line_text(config, record, first) == gated(config.time, record.level, time_field(first))
            + line_rest(config, record),
        line_text(config, record, second) == gated(config.time, record.level, time_field(second))
            + line_rest(config, record),
        !admits(config.time, record.level) ==> line_text(config, record, first) == line_text(
            config,
            record,
            second,
        ),
{
    lemma_line_fields(config, record, first);
    lemma_line_fields(config, record, second);
    if !admits(config.time, record.level) {
        assert(line_text(config, record, first) =~= line_text(config, record, second));
    }
}

/// What the first steps give is the beginning of the whole line, and each
/// further step only adds behind it.
pub proof fn lemma_prefix_of_line(
    config: &Config,
    record: &LogRecord,
    clock: Seq<char>,
    steps: int,
)
    requires
        0 <= steps <= 5,
    ensures
        line_prefix(config, record, clock, steps).is_prefix_of(line_text(config, record, clock)),
        line_prefix(config, record, clock, 0).len() == 0,
        steps < 5 ==> line_prefix(config, record, clock, steps + 1) == line_prefix(
            config,
            record,
            clock,
            steps,
        ) + step_text(config, record, clock, steps),
        !step_shown(config, record.level, steps) ==> step_text(config, record, clock, steps).len()
            == 0,
        writes_before(config, record.level, 0) == 0,
        writes_before(config, record.level, steps + 1) == writes_before(
            config,
            record.level,
            steps,
        ) + if step_shown(config, record.level, steps) {
            1nat
        } else {
            0nat
        },
    decreases 5 - steps,
{
    let here = line_prefix(config, record, clock, steps);
    let whole = line_text(config, record, clock);
    if steps < 5 {
        lemma_prefix_of_line(config, record, clock, steps + 1);
        let next = line_prefix(config, record, clock, steps + 1);
        assert(next == here + step_text(config, record, clock, steps));
        assert(here =~= next.subrange(0, here.len() as int));
        assert(here =~= whole.subrange(0, here.len() as int));
    } else {
        assert(here =~= whole.subrange(0, here.len() as int));
    }
}

/// Further steps never take a write back: the count of writes only grows
/// with the steps, by at most one for each.
pub proof fn lemma_writes_grow(config: &Config, level: Severity, fewer: int, more: int)
    requires
        0 <= fewer <= more,
    ensures
        writes_before(config, level, fewer) <= writes_before(config, level, more) <= more,
    decreases more,
{
    if fewer < more {
        lemma_writes_grow(config, level, fewer, more - 1);
    } else if more > 0 {
        lemma_writes_grow(config, level, more - 1, more - 1);
    }
}

} // verus!
