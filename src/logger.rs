//! An explicitly constructed logging frontend: it filters events by level,
//! formats them for the console and queues the text on a writer handle.
use vstd::prelude::*;
use vstd::string::StrSliceExecFns;
use vstd::utf8::encode_utf8;

use std::collections::HashMap;

use eyre::Report;

use crate::config::{build_features, filter_level, max_level, FeatureConfig, LoggingConfig};
use crate::error::{recoverable_fields, recovery_key, report_cause_text, report_text, reported_cause};
use crate::fields::{cause_key, field_views, message_key, Field};
use crate::formatter::{event_text, ClockTime, ConsoleFormatter};
use crate::level::{level_rank, level_to_index, Level};
use crate::text::push_text;
use crate::writer::{Msg, WriterHandle};

verus! {

/// Relies on `HashMap`'s `Debug`: the map as `{"key": "value", ...}`, in
/// the map's iteration order.
#[verifier::external_body]
fn debug_map(map: &HashMap<String, String>) -> (r: String) {
    format!("{:?}", map)
}

/// The name of the field that holds the extra fields of an event.
pub open spec fn fields_key() -> Seq<char> {
    seq!['f', 'i', 'e', 'l', 'd', 's']
}

/// The message of an event that carries one extra field in its text.
pub open spec fn field_message(message: Seq<char>, name: Seq<char>, value: Seq<char>) -> Seq<
    char,
> {
    message + ": "@ + name + "="@ + value
}

/// Filters, formats and queues events.
pub struct Logger {
    formatter: ConsoleFormatter,
    threshold: Level,
    console: bool,
    colored: bool,
    sink: WriterHandle,
}

impl Logger {
    /// What the logger has queued, in order.
    pub closed spec fn sent(&self) -> Seq<Msg> {
        self.sink.sent()
    }

    /// Timestamps are shown.
    pub closed spec fn with_time(&self) -> bool {
        self.formatter.include_timestamps
    }

    /// The least severe level that passes.
    pub closed spec fn least_severe(&self) -> Level {
        self.threshold
    }

    /// Console output is on.
    pub closed spec fn console_on(&self) -> bool {
        self.console
    }

    /// Styling is on.
    pub closed spec fn color_on(&self) -> bool {
        self.colored
    }

    /// Events at `level` are written.
    pub open spec fn enables(&self, level: Level) -> bool {
        self.console_on() && level_rank(level) <= level_rank(self.least_severe())
    }

    /// A logger set up by `config`, writing through `sink`; `colored` turns
    /// styling on.
    pub fn new(config: &LoggingConfig, colored: bool, sink: WriterHandle) -> (r: Self)
        ensures
            r.with_time() == config.include_timestamps,
            r.least_severe() == filter_level(*config, build_features()),
            r.console_on() == config.enable_console,
            r.color_on() == colored,
            r.sent() == sink.sent(),
    {
        let features = FeatureConfig::from_features();
        Logger {
            formatter: ConsoleFormatter::new().with_timestamps(config.include_timestamps),
            threshold: max_level(config, &features),
            console: config.enable_console && features.logs_enabled,
            colored,
            sink,
        }
    }

    /// Events at `level` are written.
    pub fn is_enabled(&self, level: Level) -> (r: bool)
        ensures
            r == self.enables(level),
    {
        self.console && level_to_index(&level) <= level_to_index(&self.threshold)
    }

    /// Formats an event at `level` and queues its text, where the level
    /// passes the filter.
    pub fn log_fields(&mut self, level: Level, fields: &[Field])
        ensures
            logged(*old(self), *final(self), level, field_views(fields@)),
    {
        if !self.is_enabled(level) {
            return;
        }
        let (text, now) = self.formatter.format_event_now(level, fields, self.colored);
        let bytes = text.as_str().as_bytes_vec();
        let queued = self.sink.enqueue_data(bytes);
        proof {
            if queued is Ok {
                let t = event_text(old(self).with_time(), level, field_views(fields@), now, old(self).color_on());
                assert(self.sent() == old(self).sent().push(Msg::Data(encode_utf8(t))));
            }
        }
    }
}

/// The logger's settings are unchanged, and it queued the event's text or
/// nothing; nothing at all where `level` does not pass. The text is the
/// event formatted at some time of day (unused where timestamps are off).
/// Queueing fails only where the channel is full or closed.
pub open spec fn logged(
    before: Logger,
    after: Logger,
    level: Level,
    fields: Seq<(Seq<char>, Seq<char>)>,
) -> bool {
    &&& after.with_time() == before.with_time()
    &&& after.least_severe() == before.least_severe()
    &&& after.console_on() == before.console_on()
    &&& after.color_on() == before.color_on()
    &&& if before.enables(level) {
        after.sent() == before.sent() || exists|t: ClockTime|
            t.wf() && after.sent() == before.sent().push(
                Msg::Data(encode_utf8(#[trigger] event_text(before.with_time(), level, fields, t, before.color_on()))),
            )
    } else {
        after.sent() == before.sent()
    }
}

fn field(name: &str, value: &str) -> (r: Field)
    ensures
        r@ == (name@, value@),
{
    Field { name: name.to_owned(), value: value.to_owned() }
}

fn message_field(message: &str) -> (r: Field)
    ensures
        r@ == (message_key(), message@),
{
    proof {
        reveal_strlit("message");
        assert("message"@ =~= message_key());
    }
    field("message", message)
}

/// Logs `message` at `level`.
pub fn log_message(logger: &mut Logger, level: Level, message: &str)
    ensures
        logged(*old(logger), *final(logger), level, seq![(message_key(), message@)]),
{
    let fields = vec![message_field(message)];
    assert(field_views(fields@) =~= seq![(message_key(), message@)]);
    logger.log_fields(level, fields.as_slice());
}

/// Logs `message` at the informational level.
pub fn log_info(logger: &mut Logger, message: &str)
    ensures
        logged(*old(logger), *final(logger), Level::Info, seq![(message_key(), message@)]),
{
    log_message(logger, Level::Info, message)
}

/// Logs `message` at the error level.
pub fn log_error(logger: &mut Logger, message: &str)
    ensures
        logged(*old(logger), *final(logger), Level::Error, seq![(message_key(), message@)]),
{
    log_message(logger, Level::Error, message)
}

/// Logs `message` at the warning level.
pub fn log_warn(logger: &mut Logger, message: &str)
    ensures
        logged(*old(logger), *final(logger), Level::Warn, seq![(message_key(), message@)]),
{
    log_message(logger, Level::Warn, message)
}

/// Logs `message` at the debug level.
pub fn log_debug(logger: &mut Logger, message: &str)
    ensures
        logged(*old(logger), *final(logger), Level::Debug, seq![(message_key(), message@)]),
{
    log_message(logger, Level::Debug, message)
}

/// Logs `message` at the trace level.
pub fn log_trace(logger: &mut Logger, message: &str)
    ensures
        logged(*old(logger), *final(logger), Level::Trace, seq![(message_key(), message@)]),
{
    log_message(logger, Level::Trace, message)
}

/// Logs an error message.
pub fn log_error_from_string(logger: &mut Logger, error_message: &str)
    ensures
        logged(*old(logger), *final(logger), Level::Error, seq![(message_key(), error_message@)]),
{
    log_message(logger, Level::Error, error_message)
}

/// Logs `message: name=value` at `level`, as one message.
pub fn log_message_with_field(
    logger: &mut Logger,
    level: Level,
    message: &str,
    field_name: &str,
    field_value: &str,
)
    ensures
        logged(
            *old(logger),
            *final(logger),
            level,
            seq![(message_key(), field_message(message@, field_name@, field_value@))],
        ),
{
    let mut text = message.to_owned();
    push_text(&mut text, ": ");
    push_text(&mut text, field_name);
    push_text(&mut text, "=");
    push_text(&mut text, field_value);
    assert(text@ =~= field_message(message@, field_name@, field_value@));
    log_message(logger, level, text.as_str());
}

/// Logs `message: name=value` at the informational level.
pub fn log_info_with_field(logger: &mut Logger, message: &str, field_name: &str, field_value: &str)
    ensures
        logged(*old(logger), *final(logger), Level::Info, seq![(message_key(), field_message(message@, field_name@, field_value@))]),
{
    log_message_with_field(logger, Level::Info, message, field_name, field_value)
}

/// Logs `message: name=value` at the error level.
pub fn log_error_with_field(logger: &mut Logger, message: &str, field_name: &str, field_value: &str)
    ensures
        logged(*old(logger), *final(logger), Level::Error, seq![(message_key(), field_message(message@, field_name@, field_value@))]),
{
    log_message_with_field(logger, Level::Error, message, field_name, field_value)
}

/// Logs `message: name=value` at the warning level.
pub fn log_warn_with_field(logger: &mut Logger, message: &str, field_name: &str, field_value: &str)
    ensures
        logged(*old(logger), *final(logger), Level::Warn, seq![(message_key(), field_message(message@, field_name@, field_value@))]),
{
    log_message_with_field(logger, Level::Warn, message, field_name, field_value)
}

/// Logs `message: name=value` at the debug level.
pub fn log_debug_with_field(logger: &mut Logger, message: &str, field_name: &str, field_value: &str)
    ensures
        logged(*old(logger), *final(logger), Level::Debug, seq![(message_key(), field_message(message@, field_name@, field_value@))]),
{
    log_message_with_field(logger, Level::Debug, message, field_name, field_value)
}

/// Logs `message: name=value` at the trace level.
pub fn log_trace_with_field(logger: &mut Logger, message: &str, field_name: &str, field_value: &str)
    ensures
        logged(*old(logger), *final(logger), Level::Trace, seq![(message_key(), field_message(message@, field_name@, field_value@))]),
{
    log_message_with_field(logger, Level::Trace, message, field_name, field_value)
}

/// Logs `message` at `level` with a `fields` field that holds `fields_text`.
pub fn log_message_with_fields_text(logger: &mut Logger, level: Level, message: &str, fields_text: &str)
    ensures
        logged(*old(logger), *final(logger), level, seq![(message_key(), message@), (fields_key(), fields_text@)]),
{
    proof {
        reveal_strlit("fields");
        assert("fields"@ =~= fields_key());
    }
    let fields = vec![message_field(message), field("fields", fields_text)];
    assert(field_views(fields@) =~= seq![(message_key(), message@), (fields_key(), fields_text@)]);
    logger.log_fields(level, fields.as_slice());
}

/// Logs `message` at `level` with a `fields` field that shows the map.
pub fn log_message_with_fields(logger: &mut Logger, level: Level, message: &str, fields: &HashMap<String, String>)
    ensures
        exists|text: Seq<char>| logged(*old(logger), *final(logger), level, #[trigger] seq![(message_key(), message@), (fields_key(), text)]),
{
    let text = debug_map(fields);
    log_message_with_fields_text(logger, level, message, text.as_str());
}

/// Logs `message` with its extra fields at the informational level.
pub fn log_info_with_fields(logger: &mut Logger, message: &str, fields: &HashMap<String, String>)
    ensures
        exists|text: Seq<char>| logged(*old(logger), *final(logger), Level::Info, #[trigger] seq![(message_key(), message@), (fields_key(), text)]),
{
    log_message_with_fields(logger, Level::Info, message, fields)
}

/// Logs `message` with its extra fields at the error level.
pub fn log_error_with_fields(logger: &mut Logger, message: &str, fields: &HashMap<String, String>)
    ensures
        exists|text: Seq<char>| logged(*old(logger), *final(logger), Level::Error, #[trigger] seq![(message_key(), message@), (fields_key(), text)]),
{
    log_message_with_fields(logger, Level::Error, message, fields)
}

/// Logs `message` with its extra fields at the warning level.
pub fn log_warn_with_fields(logger: &mut Logger, message: &str, fields: &HashMap<String, String>)
    ensures
        exists|text: Seq<char>| logged(*old(logger), *final(logger), Level::Warn, #[trigger] seq![(message_key(), message@), (fields_key(), text)]),
{
    log_message_with_fields(logger, Level::Warn, message, fields)
}

/// Logs `message` with its extra fields at the debug level.
pub fn log_debug_with_fields(logger: &mut Logger, message: &str, fields: &HashMap<String, String>)
    ensures
        exists|text: Seq<char>| logged(*old(logger), *final(logger), Level::Debug, #[trigger] seq![(message_key(), message@), (fields_key(), text)]),
{
    log_message_with_fields(logger, Level::Debug, message, fields)
}

/// Logs `message` with its extra fields at the trace level.
pub fn log_trace_with_fields(logger: &mut Logger, message: &str, fields: &HashMap<String, String>)
    ensures
        exists|text: Seq<char>| logged(*old(logger), *final(logger), Level::Trace, #[trigger] seq![(message_key(), message@), (fields_key(), text)]),
{
    log_message_with_fields(logger, Level::Trace, message, fields)
}

/// Warns that an error was recovered from: the error's text, its cause's
/// text where it has one, and the action taken.
pub fn log_recoverable_error_texts(
    logger: &mut Logger,
    error_text: &str,
    cause_text: Option<&str>,
    recovery_action: &str,
)
    ensures
        logged(
            *old(logger),
            *final(logger),
            Level::Warn,
            recoverable_fields(
                error_text@,
                match cause_text {
                    Some(c) => Some(c@),
                    None => None,
                },
                recovery_action@,
            ),
        ),
{
    proof {
        reveal_strlit("Recoverable error, continuing: ");
        reveal_strlit("cause");
        reveal_strlit("recovery");
        assert("cause"@ =~= cause_key());
        assert("recovery"@ =~= recovery_key());
    }
    let mut message = "Recoverable error, continuing: ".to_owned();
    push_text(&mut message, error_text);
    let mut fields: Vec<Field> = vec![message_field(message.as_str())];
    if let Some(c) = reported_cause(error_text, cause_text) {
        fields.push(field("cause", c));
    }
    fields.push(field("recovery", recovery_action));
    assert(field_views(fields@) =~= recoverable_fields(
        error_text@,
        match cause_text {
            Some(c) => Some(c@),
            None => None,
        },
        recovery_action@,
    ));
    logger.log_fields(Level::Warn, fields.as_slice());
}

/// Warns that `error` was recovered from by `recovery_action`.
pub fn log_recoverable_error(logger: &mut Logger, error: &Report, recovery_action: &str)
    ensures
        exists|e: Seq<char>, c: Option<Seq<char>>|
            logged(*old(logger), *final(logger), Level::Warn, #[trigger] recoverable_fields(e, c, recovery_action@)),
{
    let error_text = report_text(error);
    let cause_text = report_cause_text(error);
    match cause_text {
        Some(c) => log_recoverable_error_texts(logger, error_text.as_str(), Some(c.as_str()), recovery_action),
        None => log_recoverable_error_texts(logger, error_text.as_str(), None, recovery_action),
    }
}

/// Warns that an error with the given message, and no cause, was recovered
/// from by `recovery_action`.
pub fn log_recoverable_error_from_string(logger: &mut Logger, error_message: &str, recovery_action: &str)
    ensures
        logged(*old(logger), *final(logger), Level::Warn, recoverable_fields(error_message@, None, recovery_action@)),
{
    log_recoverable_error_texts(logger, error_message, None, recovery_action)
}

} // verus!
