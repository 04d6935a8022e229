//! The logging layer: which events are written for a configured log level,
//! how an event's fields become one message, and the line that is written.

use vstd::prelude::*;
use vstd::string::StringExecFns;
use crate::text::{str_eq, str_contains, has_substring, lemma_contains_inserted};

verus! {

/// Severity of a tracing event, from most to least severe.
#[derive(Clone, Copy, Debug, PartialEq, Eq, Structural)]
pub enum EventLevel {
    Error,
    Warn,
    Info,
    Debug,
    Trace,
}

/// Position of a severity on the verbosity scale: 1 for `Error` up to 5
/// for `Trace`.
pub open spec fn rank(level: EventLevel) -> int {
    match level {
        EventLevel::Error => 1,
        EventLevel::Warn => 2,
        EventLevel::Info => 3,
        EventLevel::Debug => 4,
        EventLevel::Trace => 5,
    }
}

/// The configured log levels under which the layer writes anything.
pub open spec fn logging_enabled(log_level: Option<Seq<char>>) -> bool {
    match log_level {
        Some(s) => s == "debug"@ || s == "info"@ || s == "warning"@ || s == "error"@,
        None => false,
    }
}

/// The least severe rank still written under a configured log level
/// (0: nothing is written).
pub open spec fn verbosity(log_level: Option<Seq<char>>) -> int {
    match log_level {
        Some(s) => if s == "debug"@ {
            5
        } else if s == "info"@ {
            3
        } else if s == "warning"@ {
            2
        } else if s == "error"@ {
            1
        } else {
            0
        },
        None => 0,
    }
}

/// Whether an event of `level` is written under the configured log level.
pub open spec fn admits(log_level: Option<Seq<char>>, level: EventLevel) -> bool {
    logging_enabled(log_level) && rank(level) <= verbosity(log_level)
}

/// The upper-case name of a severity in a log line.
pub open spec fn level_name(level: EventLevel) -> Seq<char> {
    match level {
        EventLevel::Error => "ERROR"@,
        EventLevel::Warn => "WARN"@,
        EventLevel::Info => "INFO"@,
        EventLevel::Debug => "DEBUG"@,
        EventLevel::Trace => "TRACE"@,
    }
}

/// The prefix that every line written by this module starts with.
pub open spec fn line_prefix() -> Seq<char> {
    "[haproxy-otel] "@
}

/// The line written for an event: `[haproxy-otel] [LEVEL] message`.
pub open spec fn log_line(level: EventLevel, message: Seq<char>) -> Seq<char> {
    line_prefix() + "["@ + level_name(level) + "] "@ + message
}

/// Targets whose events carry their target name in front of the message.
pub open spec fn is_exporter_target(target: Seq<char>) -> bool {
    has_substring(target, "opentelemetry"@) || has_substring(target, "otlp"@) || has_substring(
        target,
        "reqwest"@,
    ) || has_substring(target, "hyper"@)
}

/// What an event's message starts with before its fields are recorded.
pub open spec fn target_prefix(target: Seq<char>) -> Seq<char> {
    if is_exporter_target(target) {
        "["@ + target + "] "@
    } else {
        Seq::empty()
    }
}

/// The message after one more field is recorded: the `message` field is
/// appended as it is, any other field as `name=value`, separated by `, `
/// from what is already there.
pub open spec fn with_field(message: Seq<char>, name: Seq<char>, value: Seq<char>) -> Seq<char> {
    if name == "message"@ {
        message + value
    } else if message.len() == 0 {
        name + "="@ + value
    } else {
        message + ", "@ + name + "="@ + value
    }
}

/// A logging layer configured with an optional log level
/// (`debug`, `info`, `warning` or `error`).
pub struct HaproxyTracingLayer {
    log_level: Option<String>,
}

impl View for HaproxyTracingLayer {
    type V = Option<Seq<char>>;

    closed spec fn view(&self) -> Option<Seq<char>> {
        match self.log_level {
            Some(s) => Some(s@),
            None => None,
        }
    }
}

impl HaproxyTracingLayer {
    /// A layer for the given configured log level.
    pub fn new(log_level: Option<String>) -> (layer: Self)
        ensures
            layer@ == (match log_level {
                Some(s) => Some(s@),
                None => None,
            }),
    {
        Self { log_level }
    }

    /// Whether the configured log level enables logging at all.
    pub fn should_log(&self) -> (r: bool)
        ensures
            r == logging_enabled(self@),
    {
        match &self.log_level {
            Some(s) => {
                let s = s.as_str();
                str_eq(s, "debug") || str_eq(s, "info") || str_eq(s, "warning") || str_eq(s, "error")
            },
            None => false,
        }
    }

    /// Whether an event of `level` is written: `debug` writes every event,
    /// `info` errors, warnings and info, `warning` errors and warnings,
    /// `error` only errors.
    pub fn should_log_level(&self, level: EventLevel) -> (r: bool)
        ensures
            r == admits(self@, level),
    {
        if !self.should_log() {
            return false;
        }
        match &self.log_level {
            Some(s) => {
                let s = s.as_str();
                if str_eq(s, "debug") {
                    true
                } else if str_eq(s, "info") {
                    match level {
                        EventLevel::Error | EventLevel::Warn | EventLevel::Info => true,
                        _ => false,
                    }
                } else if str_eq(s, "warning") {
                    match level {
                        EventLevel::Error | EventLevel::Warn => true,
                        _ => false,
                    }
                } else if str_eq(s, "error") {
                    match level {
                        EventLevel::Error => true,
                        _ => false,
                    }
                } else {
                    false
                }
            },
            None => false,
        }
    }

    /// The line written for an event of `level` with `message`.
    pub fn format_log(&self, level: EventLevel, message: &str) -> (line: String)
        ensures
            line@ == log_line(level, message@),
    {
        let level_str = match level {
            EventLevel::Error => "ERROR",
            EventLevel::Warn => "WARN",
            EventLevel::Info => "INFO",
            EventLevel::Debug => "DEBUG",
            EventLevel::Trace => "TRACE",
        };
        let mut line = String::new();
        line.append("[haproxy-otel] ");
        line.append("[");
        line.append(level_str);
        line.append("] ");
        line.append(message);
        assert(line@ =~= log_line(level, message@));
        line
    }

    /// The line to write for an event of `level` whose recorded message is
    /// `message`: none when the message is empty.
    pub fn event_line(&self, level: EventLevel, message: &str) -> (line: Option<String>)
        ensures
            message@.len() == 0 ==> line is None,
            message@.len() != 0 ==> (line matches Some(l) && l@ == log_line(level, message@)),
    {
        if message.is_empty() {
            None
        } else {
            Some(self.format_log(level, message))
        }
    }
}

/// What an event's message starts with: `[target] ` for the exporter's own
/// crates (targets naming `opentelemetry`, `otlp`, `reqwest` or `hyper`),
/// nothing otherwise.
pub fn event_target_prefix(target: &str) -> (prefix: String)
    ensures
        prefix@ == target_prefix(target@),
{
    let mut prefix = String::new();
    if str_contains(target, "opentelemetry") || str_contains(target, "otlp") || str_contains(
        target,
        "reqwest",
    ) || str_contains(target, "hyper") {
        prefix.append("[");
        prefix.append(target);
        prefix.append("] ");
        assert(prefix@ =~= target_prefix(target@));
    } else {
        assert(prefix@ =~= target_prefix(target@));
    }
    prefix
}

/// Collects an event's fields into one message.
pub struct MessageVisitor {
    message: String,
}

impl View for MessageVisitor {
    type V = Seq<char>;

    closed spec fn view(&self) -> Seq<char> {
        self.message@
    }
}

impl MessageVisitor {
    /// A visitor whose message starts as `start`.
    pub fn new(start: String) -> (v: Self)
        ensures
            v@ == start@,
    {
        MessageVisitor { message: start }
    }

    /// The message collected so far.
    pub fn message(&self) -> (m: &str)
        ensures
            m@ == self@,
    {
        self.message.as_str()
    }

    /// Records a field given as text: the `message` field is appended as
    /// it is, any other as `name=value` after a `, ` separator when the
    /// message is not empty.
    pub fn record_str(&mut self, field_name: &str, value: &str)
        ensures
            final(self)@ == with_field(old(self)@, field_name@, value@),
    {
        if str_eq(field_name, "message") {
            self.message.append(value);
        } else {
            if !self.message.as_str().is_empty() {
                self.message.append(", ");
            }
            self.message.append(field_name);
            self.message.append("=");
            self.message.append(value);
        }
        assert(self@ =~= with_field(old(self)@, field_name@, value@));
    }

    /// Records a field given by its `{:?}` rendering, in the same way as
    /// `record_str`.
    pub fn record_debug(&mut self, field_name: &str, rendered: &str)
        ensures
            final(self)@ == with_field(old(self)@, field_name@, rendered@),
    {
        self.record_str(field_name, rendered);
    }
}

/// One recorded field of an event: its name and its value, either rendered
/// with `{:?}` or given as text.
pub enum FieldRecord {
    Debug(String, String),
    Str(String, String),
}

/// The name of a recorded field.
pub open spec fn field_name(f: FieldRecord) -> Seq<char> {
    match f {
        FieldRecord::Debug(n, _) => n@,
        FieldRecord::Str(n, _) => n@,
    }
}

/// The text of a recorded field's value.
pub open spec fn field_value(f: FieldRecord) -> Seq<char> {
    match f {
        FieldRecord::Debug(_, v) => v@,
        FieldRecord::Str(_, v) => v@,
    }
}

/// The message after the fields are recorded in order onto `start`.
pub open spec fn fields_message(start: Seq<char>, fields: Seq<FieldRecord>) -> Seq<char>
    decreases fields.len(),
{
    if fields.len() == 0 {
        start
    } else {
        with_field(
            fields_message(start, fields.drop_last()),
            field_name(fields.last()),
            field_value(fields.last()),
        )
    }
}

/// What is written for an event: nothing when its level is not admitted or
/// its message is empty, otherwise the log line of its message, which is
/// the target prefix followed by the recorded fields.
pub open spec fn event_output(
    log_level: Option<Seq<char>>,
    level: EventLevel,
    target: Seq<char>,
    fields: Seq<FieldRecord>,
) -> Option<Seq<char>> {
    if !admits(log_level, level) {
        None
    } else {
        let message = fields_message(target_prefix(target), fields);
        if message.len() == 0 {
            None
        } else {
            Some(log_line(level, message))
        }
    }
}

/// The view of an optional string.
pub open spec fn opt_string_view(s: Option<String>) -> Option<Seq<char>> {
    match s {
        Some(t) => Some(t@),
        None => None,
    }
}

impl HaproxyTracingLayer {
    /// The line written for an event of `level` from `target` with the
    /// recorded `fields`, if any.
    pub fn on_event(&self, level: EventLevel, target: &str, fields: &Vec<FieldRecord>) -> (line:
        Option<String>)
        ensures
            opt_string_view(line) == event_output(self@, level, target@, fields@),
    {
        if !self.should_log_level(level) {
            return None;
        }
        let mut visitor = MessageVisitor::new(event_target_prefix(target));
        let n = fields.len();
        let mut i: usize = 0;
        while i < n
            invariant
                0 <= i <= n,
                n == fields@.len(),
                visitor@ == fields_message(target_prefix(target@), fields@.subrange(0, i as int)),
            decreases n - i,
        {
            match &fields[i] {
                FieldRecord::Debug(name, rendered) => visitor.record_debug(
                    name.as_str(),
                    rendered.as_str(),
                ),
                FieldRecord::Str(name, value) => visitor.record_str(name.as_str(), value.as_str()),
            }
            assert(fields@.subrange(0, i + 1).drop_last() =~= fields@.subrange(0, i as int));
            i = i + 1;
        }
        assert(fields@.subrange(0, n as int) =~= fields@);
        match self.event_line(level, visitor.message()) {
            Some(l) => Some(l),
            None => None,
        }
    }
}

/// An event is written exactly when its level is admitted and its message
/// is not empty, and what is written is then its log line.
pub proof fn lemma_event_written_iff(
    log_level: Option<Seq<char>>,
    level: EventLevel,
    target: Seq<char>,
    fields: Seq<FieldRecord>,
)
    ensures
        event_output(log_level, level, target, fields) is Some <==> (admits(log_level, level)
            && fields_message(target_prefix(target), fields).len() > 0),
        event_output(log_level, level, target, fields) matches Some(l) ==> l == log_line(
            level,
            fields_message(target_prefix(target), fields),
        ),
{
}

/// An event is only ever written when the configured log level enables
/// logging at all.
pub proof fn lemma_written_only_when_enabled(log_level: Option<Seq<char>>, level: EventLevel)
    ensures
        admits(log_level, level) ==> logging_enabled(log_level),
{
}

/// Whatever is written at one severity is also written at every more
/// severe one.
pub proof fn lemma_more_severe_also_written(
    log_level: Option<Seq<char>>,
    written: EventLevel,
    other: EventLevel,
)
    requires
        admits(log_level, written),
        rank(other) <= rank(written),
    ensures
        admits(log_level, other),
{
}

/// The documented levels: `debug` writes every event, `info` errors,
/// warnings and info, `warning` errors and warnings, `error` only errors,
/// and no configured level writes nothing.
pub proof fn lemma_documented_levels(level: EventLevel)
    ensures
        admits(Some("debug"@), level),
        admits(Some("info"@), level) <==> (level == EventLevel::Error || level
            == EventLevel::Warn || level == EventLevel::Info),
        admits(Some("warning"@), level) <==> (level == EventLevel::Error || level
            == EventLevel::Warn),
        admits(Some("error"@), level) <==> level == EventLevel::Error,
        !admits(None, level),
{
    reveal_strlit("debug");
    reveal_strlit("info");
    reveal_strlit("warning");
    reveal_strlit("error");
    assert("info"@ != "debug"@) by {
        assert("info"@[0] != "debug"@[0]);
    }
    assert("warning"@ != "debug"@) by {
        assert("warning"@[0] != "debug"@[0]);
    }
    assert("warning"@ != "info"@) by {
        assert("warning"@[0] != "info"@[0]);
    }
    assert("error"@ != "debug"@) by {
        assert("error"@[0] != "debug"@[0]);
    }
    assert("error"@ != "info"@) by {
        assert("error"@[0] != "info"@[0]);
    }
    assert("error"@ != "warning"@) by {
        assert("error"@[0] != "warning"@[0]);
    }
}

/// Every line the layer writes starts with `[haproxy-otel] `.
pub proof fn lemma_lines_carry_prefix(level: EventLevel, message: Seq<char>)
    ensures
        log_line(level, message).subrange(0, line_prefix().len() as int) == line_prefix(),
        log_line(level, message).len() > line_prefix().len() + level_name(level).len(),
{
    reveal_strlit("[haproxy-otel] ");
    reveal_strlit("[");
    reveal_strlit("] ");
    assert(log_line(level, message).subrange(0, line_prefix().len() as int) =~= line_prefix());
}

/// Recording the `message` field appends its whole value to the message;
/// recording any other field appends `, ` (when the message is not empty),
/// the field's name, `=` and its whole value, and nothing else: the old
/// message is kept as a prefix, the value ends the new message, and the
/// lengths add up.
pub proof fn lemma_field_appended_whole(message: Seq<char>, name: Seq<char>, value: Seq<char>)
    ensures
        name == "message"@ ==> with_field(message, name, value) == message + value,
        name != "message"@ && message.len() == 0 ==> with_field(message, name, value) == name
            + "="@ + value,
        name != "message"@ && message.len() > 0 ==> with_field(message, name, value) == message
            + ", "@ + name + "="@ + value,
        name != "message"@ && message.len() > 0 ==> with_field(message, name, value).len()
            == message.len() + 3 + name.len() + value.len(),
        name != "message"@ && message.len() == 0 ==> with_field(message, name, value).len()
            == 1 + name.len() + value.len(),
        with_field(message, name, value).subrange(0, message.len() as int) == message,
        with_field(message, name, value).subrange(
            with_field(message, name, value).len() - value.len(),
            with_field(message, name, value).len() as int,
        ) == value,
{
    reveal_strlit("=");
    reveal_strlit(", ");
    let r = with_field(message, name, value);
    assert(r.subrange(0, message.len() as int) =~= message);
    assert(r.subrange(r.len() - value.len(), r.len() as int) =~= value);
}

/// Every recorded field reaches the message, in order: the message of a
/// list of fields with one more field at the end is the message of the
/// list with that field recorded onto it, `message` fields appended as
/// they are and other fields as `, name=value`.
pub proof fn lemma_every_field_recorded(start: Seq<char>, fields: Seq<FieldRecord>, name: String, value: String)
    ensures
        fields_message(start, fields.push(FieldRecord::Str(name, value))) == with_field(
            fields_message(start, fields),
            name@,
            value@,
        ),
        fields_message(start, fields.push(FieldRecord::Debug(name, value))) == with_field(
            fields_message(start, fields),
            name@,
            value@,
        ),
        name@ == "message"@ ==> fields_message(start, fields.push(FieldRecord::Str(name, value)))
            == fields_message(start, fields) + value@,
        name@ != "message"@ && fields_message(start, fields).len() > 0 ==> fields_message(
            start,
            fields.push(FieldRecord::Debug(name, value)),
        ) == fields_message(start, fields) + ", "@ + name@ + "="@ + value@,
        name@ != "message"@ && fields_message(start, fields).len() > 0 ==> fields_message(
            start,
            fields.push(FieldRecord::Str(name, value)),
        ) == fields_message(start, fields) + ", "@ + name@ + "="@ + value@,
        name@ != "message"@ && fields_message(start, fields).len() == 0 ==> fields_message(
            start,
            fields.push(FieldRecord::Str(name, value)),
        ) == name@ + "="@ + value@,
{
    let a = fields.push(FieldRecord::Str(name, value));
    let b = fields.push(FieldRecord::Debug(name, value));
    assert(a.drop_last() =~= fields);
    assert(b.drop_last() =~= fields);
    lemma_field_appended_whole(fields_message(start, fields), name@, value@);
}

/// The message of a list of fields starts with the target prefix and never
/// gets shorter as fields are recorded.
pub proof fn lemma_message_keeps_start(start: Seq<char>, fields: Seq<FieldRecord>)
    ensures
        fields_message(start, fields).len() >= start.len(),
        fields_message(start, fields).subrange(0, start.len() as int) == start,
    decreases fields.len(),
{
    if fields.len() > 0 {
        lemma_message_keeps_start(start, fields.drop_last());
        let m = fields_message(start, fields.drop_last());
        lemma_field_appended_whole(m, field_name(fields.last()), field_value(fields.last()));
        let r = fields_message(start, fields);
        assert(r.subrange(0, m.len() as int) == m);
        assert(r.subrange(0, start.len() as int) =~= m.subrange(0, start.len() as int));
    }
}

/// A written event's line is `[haproxy-otel] [LEVEL] ` followed by the
/// whole message of its fields.
pub proof fn lemma_event_line_carries_message(
    log_level: Option<Seq<char>>,
    level: EventLevel,
    target: Seq<char>,
    fields: Seq<FieldRecord>,
)
    ensures
        event_output(log_level, level, target, fields) matches Some(l) ==> l == "[haproxy-otel] ["@
            + level_name(level) + "] "@ + fields_message(target_prefix(target), fields),
{
    reveal_strlit("[haproxy-otel] [");
    reveal_strlit("[haproxy-otel] ");
    reveal_strlit("[");
    let m = fields_message(target_prefix(target), fields);
    assert(log_line(level, m) =~= "[haproxy-otel] ["@ + level_name(level) + "] "@ + m);
}

/// Events of a target containing `opentelemetry`, `otlp`, `reqwest` or
/// `hyper` anywhere in its name carry the target in brackets in front of
/// their message; other targets carry nothing.
pub proof fn lemma_exporter_targets_prefixed(before: Seq<char>, after: Seq<char>, target: Seq<char>)
    ensures
        target_prefix(before + "opentelemetry"@ + after) == "["@ + (before + "opentelemetry"@
            + after) + "] "@,
        target_prefix(before + "otlp"@ + after) == "["@ + (before + "otlp"@ + after) + "] "@,
        target_prefix(before + "reqwest"@ + after) == "["@ + (before + "reqwest"@ + after)
            + "] "@,
        target_prefix(before + "hyper"@ + after) == "["@ + (before + "hyper"@ + after) + "] "@,
        !has_substring(target, "opentelemetry"@) && !has_substring(target, "otlp"@)
            && !has_substring(target, "reqwest"@) && !has_substring(target, "hyper"@)
            ==> target_prefix(target) == Seq::<char>::empty(),
{
    lemma_contains_inserted(before, "opentelemetry"@, after);
    lemma_contains_inserted(before, "otlp"@, after);
    lemma_contains_inserted(before, "reqwest"@, after);
    lemma_contains_inserted(before, "hyper"@, after);
}

} // verus!
