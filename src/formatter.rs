//! The console event formatter: a pure function from a level and ordered
//! fields to one line of text, or two where the event carries a cause.
use vstd::prelude::*;
use vstd::string::StrSliceExecFns;

use chrono::Timelike;

use crate::fields::{
    cause_key, field_views, first_named, first_value, has_success, has_success_field,
    is_cause_key, is_message_key, is_simple, is_simple_message, is_success_key, message_key,
    success_key, Field,
};
use crate::level::{badge_text, event_badge, get_level_visual_length, Level};
use crate::style::{digit_char, painted, style_text, styled, Emphasis, Hue, Look};
use crate::text::{push_spaces, push_text};
use crate::url::{contains_url, has_url, lemma_url_len_bound, split_urls, spans_from, url_len, url_spans, Span};

verus! {

/// Width, in visible characters, that every badge is right-aligned to.
pub const BADGE_WIDTH: usize = 9;

/// A wall-clock time of day.
#[derive(Clone, Copy, Debug, PartialEq, Eq, Structural)]
pub struct ClockTime {
    pub hour: u8,
    pub minute: u8,
    pub second: u8,
}

impl ClockTime {
    /// Each part is in range.
    pub open spec fn wf(&self) -> bool {
        self.hour < 24 && self.minute < 60 && self.second < 60
    }
}

/// Relies on chrono's `Local::now` and `Timelike`: the local time of day,
/// with the hour below 24 and the minute and second below 60.
#[verifier::external_body]
fn local_clock() -> (r: ClockTime)
    ensures
        r.wf(),
{
    let now = chrono::Local::now();
    ClockTime { hour: now.hour() as u8, minute: now.minute() as u8, second: now.second() as u8 }
}

/// `n` spaces.
pub open spec fn spaces(n: nat) -> Seq<char> {
    Seq::new(n, |k: int| ' ')
}

/// Two decimal digits for `n < 100`.
pub open spec fn two_digits(n: nat) -> Seq<char> {
    seq![digit_char(n / 10), digit_char(n % 10)]
}

/// `HH:MM:SS`.
pub open spec fn clock_text(t: ClockTime) -> Seq<char> {
    two_digits(t.hour as nat) + seq![':'] + two_digits(t.minute as nat) + seq![':'] + two_digits(
        t.second as nat,
    )
}

/// The colour of a level.
pub open spec fn level_hue(level: Level) -> Hue {
    match level {
        Level::Error => Hue::Red,
        Level::Warn => Hue::Yellow,
        Level::Info => Hue::Blue,
        Level::Debug => Hue::Cyan,
        Level::Trace => Hue::Magenta,
    }
}

/// The orange of the cause line.
pub open spec fn cause_hue() -> Hue {
    Hue::Rgb(255, 165, 0)
}

/// The style of the badge of an event.
pub open spec fn badge_look(level: Level, is_success: bool) -> Look {
    Look { hue: if is_success { Hue::Green } else { level_hue(level) }, emphasis: Emphasis::Bold }
}

/// The style of field names and values of an event.
pub open spec fn value_look(level: Level, is_success: bool) -> Look {
    Look { hue: if is_success { Hue::Green } else { level_hue(level) }, emphasis: Emphasis::Italic }
}

/// The style of a URL inside a value: the value's colour, underlined.
pub open spec fn url_look(level: Level, is_success: bool) -> Look {
    Look { hue: if is_success { Hue::Green } else { level_hue(level) }, emphasis: Emphasis::Underlined }
}

/// The style of the timestamp.
pub open spec fn timestamp_look() -> Look {
    Look { hue: Hue::BrightBlack, emphasis: Emphasis::Plain }
}

/// The style of the `[CAUSE]` badge.
pub open spec fn cause_badge_look() -> Look {
    Look { hue: cause_hue(), emphasis: Emphasis::Bold }
}

/// The style of plain text in a cause that holds a URL.
pub open spec fn cause_value_look() -> Look {
    Look { hue: cause_hue(), emphasis: Emphasis::Italic }
}

/// The style of a URL in a cause.
pub open spec fn cause_url_look() -> Look {
    Look { hue: cause_hue(), emphasis: Emphasis::Underlined }
}

/// `text` styled and right-aligned, with leading spaces, to the badge width.
#[verifier::opaque]
pub open spec fn aligned(text: Seq<char>, look: Look, colored: bool) -> Seq<char> {
    spaces(if text.len() < 9 { (9 - text.len()) as nat } else { 0 }) + styled(text, look, colored)
}

/// The aligned badge of an event.
#[verifier::opaque]
pub open spec fn level_prefix(level: Level, is_success: bool, colored: bool) -> Seq<char> {
    aligned(event_badge(level, is_success), badge_look(level, is_success), colored)
}

/// The styled timestamp and the space after it.
#[verifier::opaque]
pub open spec fn stamp(t: ClockTime, colored: bool) -> Seq<char> {
    styled(clock_text(t), timestamp_look(), colored) + seq![' ']
}

/// The given spans of `s`, each in `look`, URLs in `link`.
pub open spec fn spans_text(
    s: Seq<char>,
    spans: Seq<(bool, int, int)>,
    look: Look,
    link: Look,
    colored: bool,
) -> Seq<char>
    decreases spans.len(),
{
    if spans.len() == 0 {
        seq![]
    } else {
        let sp = spans.last();
        spans_text(s, spans.drop_last(), look, link, colored) + styled(
            s.subrange(sp.1, sp.2),
            if sp.0 { link } else { look },
            colored,
        )
    }
}

/// `s` with its plain text in `look` and its URLs in `link`.
#[verifier::opaque]
pub open spec fn url_aware(s: Seq<char>, look: Look, link: Look, colored: bool) -> Seq<char> {
    spans_text(s, url_spans(s), look, link, colored)
}

/// A field value as the event line shows it.
#[verifier::opaque]
pub open spec fn value_text(v: Seq<char>, level: Level, is_success: bool, colored: bool) -> Seq<
    char,
> {
    if has_url(v) {
        url_aware(v, value_look(level, is_success), url_look(level, is_success), colored)
    } else {
        styled(v, value_look(level, is_success), colored)
    }
}

/// `message`, `success` and `cause` shape the line; they are not listed as fields.
pub open spec fn is_structural(name: Seq<char>) -> bool {
    name == message_key() || name == success_key() || name == cause_key()
}

/// The fields that are listed after the message, in order.
pub open spec fn display_fields(fields: Seq<(Seq<char>, Seq<char>)>) -> Seq<
    (Seq<char>, Seq<char>),
>
    decreases fields.len(),
{
    if fields.len() == 0 {
        seq![]
    } else {
        let d = display_fields(fields.drop_last());
        if is_structural(fields.last().0) {
            d
        } else {
            d.push(fields.last())
        }
    }
}

/// `: name=value, name=value, ...` for the listed fields.
#[verifier::opaque]
pub open spec fn pairs_text(
    d: Seq<(Seq<char>, Seq<char>)>,
    level: Level,
    is_success: bool,
    colored: bool,
) -> Seq<char>
    decreases d.len(),
{
    if d.len() == 0 {
        seq![]
    } else {
        pairs_text(d.drop_last(), level, is_success, colored) + (if d.len() == 1 {
            ": "@
        } else {
            ", "@
        }) + styled(d.last().0, value_look(level, is_success), colored) + "="@ + value_text(
            d.last().1,
            level,
            is_success,
            colored,
        )
    }
}

/// The message, then the listed fields; a single listed field shows its value alone.
#[verifier::opaque]
pub open spec fn fields_text(
    fields: Seq<(Seq<char>, Seq<char>)>,
    level: Level,
    is_success: bool,
    colored: bool,
) -> Seq<char> {
    let d = display_fields(fields);
    let message = match first_value(fields, message_key()) {
        Some(m) => m,
        None => seq![],
    };
    message + if d.len() == 1 {
        ": "@ + value_text(d[0].1, level, is_success, colored)
    } else {
        pairs_text(d, level, is_success, colored)
    }
}

/// The text of a cause in the cause style, with its URLs underlined.
#[verifier::opaque]
pub open spec fn cause_text(c: Seq<char>, colored: bool) -> Seq<char> {
    if has_url(c) {
        url_aware(c, cause_value_look(), cause_url_look(), colored)
    } else {
        styled(c, cause_value_look(), colored)
    }
}

/// The line that shows an event's cause.
#[verifier::opaque]
pub open spec fn cause_line(with_time: bool, c: Seq<char>, t: ClockTime, colored: bool) -> Seq<
    char,
> {
    (if with_time { stamp(t, colored) } else { seq![] }) + aligned("[CAUSE]"@, cause_badge_look(), colored)
        + seq![' '] + cause_text(c, colored) + seq!['\n']
}

/// An informational event with a `success` field that holds `true`.
pub open spec fn event_is_success(level: Level, fields: Seq<(Seq<char>, Seq<char>)>) -> bool {
    level == Level::Info && has_success(fields)
}

/// The full text for an event.
#[verifier::opaque]
pub open spec fn event_text(
    with_time: bool,
    level: Level,
    fields: Seq<(Seq<char>, Seq<char>)>,
    t: ClockTime,
    colored: bool,
) -> Seq<char> {
    let ok = event_is_success(level, fields);
    if is_simple(fields) && !with_time {
        level_prefix(level, ok, colored) + seq![' '] + fields[0].1 + seq!['\n']
    } else {
        (if with_time { stamp(t, colored) } else { seq![] }) + level_prefix(level, ok, colored)
            + seq![' '] + fields_text(fields, level, ok, colored) + seq!['\n'] + match first_value(
            fields,
            cause_key(),
        ) {
            Some(c) => cause_line(with_time, c, t, colored),
            None => seq![],
        }
    }
}

pub proof fn lemma_spans_from_bounds(s: Seq<char>, t: int, i: int)
    requires
        0 <= t <= i,
    ensures
        forall|k: int|
            0 <= k < spans_from(s, t, i).len() ==> 0 <= (#[trigger] spans_from(s, t, i)[k]).1
                <= spans_from(s, t, i)[k].2 <= s.len(),
    decreases s.len() - i,
{
    if i < s.len() {
        if url_len(s, i) > 0 {
            lemma_url_len_bound(s, i);
            let e = i + url_len(s, i);
            lemma_spans_from_bounds(s, e, e);
            let rest = spans_from(s, e, e);
            let before: Seq<(bool, int, int)> = if t < i {
                seq![(false, t, i)]
            } else {
                seq![]
            };
            let all = spans_from(s, t, i);
            assert(all == before + seq![(true, i, e)] + rest);
            assert forall|k: int| 0 <= k < all.len() implies 0 <= (#[trigger] all[k]).1 <= all[k].2
                <= s.len() by {
                if k >= before.len() + 1 {
                    assert(all[k] == rest[k - before.len() - 1]);
                }
            }
        } else {
            lemma_spans_from_bounds(s, t, i + 1);
            assert(spans_from(s, t, i) == spans_from(s, t, i + 1));
        }
    }
}

/// The text of two runs of spans is the text of each, in order.
pub proof fn lemma_spans_text_append(
    s: Seq<char>,
    a: Seq<(bool, int, int)>,
    b: Seq<(bool, int, int)>,
    look: Look,
    link: Look,
    colored: bool,
)
    ensures
        spans_text(s, a + b, look, link, colored) == spans_text(s, a, look, link, colored)
            + spans_text(s, b, look, link, colored),
    decreases b.len(),
{
    if b.len() == 0 {
        assert(a + b =~= a);
    } else {
        lemma_spans_text_append(s, a, b.drop_last(), look, link, colored);
        assert((a + b).drop_last() =~= a + b.drop_last());
        assert((a + b).last() == b.last());
    }
}

/// Unstyled, the spans from position `i` on, with plain text pending from
/// `t`, spell out the rest of `s` from `t`.
pub proof fn lemma_spans_from_rejoin(s: Seq<char>, t: int, i: int, look: Look, link: Look)
    requires
        0 <= t <= i <= s.len(),
    ensures
        spans_text(s, spans_from(s, t, i), look, link, false) == s.subrange(t, s.len() as int),
    decreases s.len() - i,
{
    if i >= s.len() {
        if t < s.len() {
            let one = spans_from(s, t, i);
            assert(one == seq![(false, t, s.len() as int)]);
            assert(one.drop_last() =~= Seq::<(bool, int, int)>::empty());
            assert(spans_text(s, one.drop_last(), look, link, false) == Seq::<char>::empty());
            assert(spans_text(s, one, look, link, false) == s.subrange(t, s.len() as int));
        } else {
            assert(s.subrange(t, s.len() as int) =~= Seq::<char>::empty());
        }
    } else if url_len(s, i) > 0 {
        lemma_url_len_bound(s, i);
        let e = i + url_len(s, i);
        lemma_spans_from_rejoin(s, e, e, look, link);
        let before: Seq<(bool, int, int)> = if t < i {
            seq![(false, t, i)]
        } else {
            seq![]
        };
        let url: Seq<(bool, int, int)> = seq![(true, i, e)];
        let rest = spans_from(s, e, e);
        assert(spans_from(s, t, i) == before + url + rest);
        lemma_spans_text_append(s, before + url, rest, look, link, false);
        lemma_spans_text_append(s, before, url, look, link, false);
        assert(url.drop_last() =~= Seq::<(bool, int, int)>::empty());
        assert(spans_text(s, url.drop_last(), look, link, false) == Seq::<char>::empty());
        assert(spans_text(s, url, look, link, false) == s.subrange(i, e));
        if t < i {
            assert(before.drop_last() =~= Seq::<(bool, int, int)>::empty());
            assert(spans_text(s, before.drop_last(), look, link, false) == Seq::<char>::empty());
            assert(spans_text(s, before, look, link, false) == s.subrange(t, i));
        } else {
            assert(s.subrange(t, i) =~= Seq::<char>::empty());
            assert(spans_text(s, before, look, link, false) == s.subrange(t, i));
        }
        assert(s.subrange(t, s.len() as int) =~= s.subrange(t, i) + s.subrange(i, e) + s.subrange(
            e,
            s.len() as int,
        ));
    } else {
        lemma_spans_from_rejoin(s, t, i + 1, look, link);
        assert(spans_from(s, t, i) == spans_from(s, t, i + 1));
    }
}

/// With styling off, the plain and URL pieces of a value, joined back in
/// order, are the value itself: splitting at URLs loses, repeats and moves
/// nothing.
pub proof fn law_url_pieces_rejoin(s: Seq<char>, look: Look, link: Look)
    ensures
        url_aware(s, look, link, false) == s,
{
    reveal(url_aware);
    lemma_spans_from_rejoin(s, 0, 0, look, link);
    assert(s.subrange(0, s.len() as int) =~= s);
}

/// With styling off, a field value and a cause are shown exactly as they
/// stand, whether or not they hold URLs.
pub proof fn law_unstyled_values_unchanged(v: Seq<char>, level: Level, is_success: bool)
    ensures
        value_text(v, level, is_success, false) == v,
        cause_text(v, false) == v,
{
    reveal(value_text);
    reveal(cause_text);
    law_url_pieces_rejoin(v, value_look(level, is_success), url_look(level, is_success));
    law_url_pieces_rejoin(v, cause_value_look(), cause_url_look());
}

/// Alignment goes by visible characters: every badge, plain or styled,
/// follows the same number of spaces, and unstyled it fills exactly the
/// badge width.
pub proof fn law_badge_visual_width(level: Level, is_success: bool)
    ensures
        event_badge(level, is_success).len() <= 9,
        level_prefix(level, is_success, false) == spaces(
            (9 - event_badge(level, is_success).len()) as nat,
        ) + event_badge(level, is_success),
        level_prefix(level, is_success, true) == spaces(
            (9 - event_badge(level, is_success).len()) as nat,
        ) + painted(event_badge(level, is_success), badge_look(level, is_success)),
        level_prefix(level, is_success, false).len() == 9,
{
    reveal(level_prefix);
    reveal(aligned);
    reveal_strlit("[ERROR]");
    reveal_strlit("[WARN]");
    reveal_strlit("[INFO]");
    reveal_strlit("[DEBUG]");
    reveal_strlit("[TRACE]");
    reveal_strlit("[SUCCESS]");
}

/// One decimal digit as text.
fn digit_str(d: u8) -> (r: &'static str)
    requires
        d < 10,
    ensures
        r@ == seq![digit_char(d as nat)],
{
    proof {
        reveal_strlit("0");
        reveal_strlit("1");
        reveal_strlit("2");
        reveal_strlit("3");
        reveal_strlit("4");
        reveal_strlit("5");
        reveal_strlit("6");
        reveal_strlit("7");
        reveal_strlit("8");
        reveal_strlit("9");
    }
    match d {
        0 => "0",
        1 => "1",
        2 => "2",
        3 => "3",
        4 => "4",
        5 => "5",
        6 => "6",
        7 => "7",
        8 => "8",
        _ => "9",
    }
}

fn push_two_digits(out: &mut String, n: u8)
    requires
        n < 100,
    ensures
        final(out)@ == old(out)@ + two_digits(n as nat),
{
    let ghost start = out@;
    push_text(out, digit_str(n / 10));
    push_text(out, digit_str(n % 10));
    assert(out@ =~= start + two_digits(n as nat));
}

/// `HH:MM:SS` for a time of day.
pub fn clock_string(t: ClockTime) -> (r: String)
    requires
        t.wf(),
    ensures
        r@ == clock_text(t),
{
    let mut out = String::new();
    push_two_digits(&mut out, t.hour);
    push_text(&mut out, ":");
    push_two_digits(&mut out, t.minute);
    push_text(&mut out, ":");
    push_two_digits(&mut out, t.second);
    proof {
        reveal_strlit(":");
    }
    assert(out@ =~= clock_text(t));
    out
}

/// Appends `s` with its plain text in `look` and its URLs in `link`.
fn push_url_aware(out: &mut String, s: &str, look: Look, link: Look, colored: bool)
    ensures
        final(out)@ == old(out)@ + url_aware(s@, look, link, colored),
{
    proof {
        reveal(url_aware);
    }
    let ghost start = out@;
    let spans = split_urls(s);
    let ghost sv = spans@.map_values(|sp: Span| sp@);
    proof {
        lemma_spans_from_bounds(s@, 0, 0);
    }
    let mut k: usize = 0;
    while k < spans.len()
        invariant
            sv == spans@.map_values(|sp: Span| sp@),
            sv == url_spans(s@),
            k <= spans.len(),
            out@ == start + spans_text(s@, sv.take(k as int), look, link, colored),
            forall|j: int| 0 <= j < sv.len() ==> 0 <= (#[trigger] sv[j]).1 <= sv[j].2 <= s@.len(),
        decreases spans.len() - k,
    {
        let sp = spans[k];
        assert(sv[k as int] == sp@);
        let piece = s.substring_char(sp.start, sp.end);
        let painted = style_text(piece, if sp.is_url { link } else { look }, colored);
        push_text(out, painted.as_str());
        assert(sv.take(k + 1).drop_last() =~= sv.take(k as int));
        k = k + 1;
    }
    assert(sv.take(k as int) =~= sv);
}

/// `content` with its plain text in `text_look` and its URLs in
/// `url_look`; all of it in `text_look` where it holds no URL.
pub fn format_urls(content: &str, text_look: Look, url_look: Look, colored: bool) -> (r: String)
    ensures
        r@ == if has_url(content@) {
            url_aware(content@, text_look, url_look, colored)
        } else {
            styled(content@, text_look, colored)
        },
{
    if !contains_url(content) {
        return style_text(content, text_look, colored);
    }
    let mut out = String::new();
    push_url_aware(&mut out, content, text_look, url_look, colored);
    assert(out@ =~= url_aware(content@, text_look, url_look, colored));
    out
}

/// The cause value as the cause line shows it.
fn push_cause_text(out: &mut String, cause: &str, colored: bool)
    ensures
        final(out)@ == old(out)@ + cause_text(cause@, colored),
{
    proof {
        reveal(cause_text);
    }
    if contains_url(cause) {
        let formatted = format_urls(
            cause,
            Look { hue: Hue::Rgb(255, 165, 0), emphasis: Emphasis::Italic },
            Look { hue: Hue::Rgb(255, 165, 0), emphasis: Emphasis::Underlined },
            colored,
        );
        push_text(out, formatted.as_str());
    } else {
        let styled = style_text(
            cause,
            Look { hue: Hue::Rgb(255, 165, 0), emphasis: Emphasis::Italic },
            colored,
        );
        push_text(out, styled.as_str());
    }
}

/// The colour of a level.
pub fn level_color(level: Level) -> (r: Hue)
    ensures
        r == level_hue(level),
{
    match level {
        Level::Error => Hue::Red,
        Level::Warn => Hue::Yellow,
        Level::Info => Hue::Blue,
        Level::Debug => Hue::Cyan,
        Level::Trace => Hue::Magenta,
    }
}

/// Formats events for the console.
#[derive(Clone, Copy, Debug, PartialEq, Eq, Structural)]
pub struct ConsoleFormatter {
    pub include_timestamps: bool,
    pub include_spans: bool,
}

impl ConsoleFormatter {
    /// A formatter without timestamps or spans.
    pub fn new() -> (r: Self)
        ensures
            !r.include_timestamps,
            !r.include_spans,
    {
        ConsoleFormatter { include_timestamps: false, include_spans: false }
    }

    /// The same formatter, with timestamps on or off.
    pub fn with_timestamps(self, include_timestamps: bool) -> (r: Self)
        ensures
            r.include_timestamps == include_timestamps,
            r.include_spans == self.include_spans,
    {
        ConsoleFormatter { include_timestamps, ..self }
    }

    /// The same formatter, with spans on or off.
    pub fn with_spans(self, include_spans: bool) -> (r: Self)
        ensures
            r.include_spans == include_spans,
            r.include_timestamps == self.include_timestamps,
    {
        ConsoleFormatter { include_spans, ..self }
    }

    fn write_timestamp(&self, out: &mut String, t: ClockTime, colored: bool)
        requires
            t.wf(),
        ensures
            final(out)@ == old(out)@ + styled(clock_text(t), timestamp_look(), colored),
    {
        let text = clock_string(t);
        let s = style_text(text.as_str(), Look { hue: Hue::BrightBlack, emphasis: Emphasis::Plain }, colored);
        push_text(out, s.as_str());
    }

    fn write_level_prefix(&self, out: &mut String, level: &Level, is_success: bool, colored: bool)
        ensures
            final(out)@ == old(out)@ + level_prefix(*level, is_success, colored),
    {
        proof {
            reveal(level_prefix);
            reveal(aligned);
        }
        proof {
            reveal_strlit("[ERROR]");
            reveal_strlit("[WARN]");
            reveal_strlit("[INFO]");
            reveal_strlit("[DEBUG]");
            reveal_strlit("[TRACE]");
            reveal_strlit("[SUCCESS]");
        }
        let visual_length = get_level_visual_length(level, is_success);
        let padding = BADGE_WIDTH - visual_length;
        push_spaces(out, padding);
        let hue = if is_success {
            Hue::Green
        } else {
            level_color(*level)
        };
        let text = if is_success {
            "[SUCCESS]"
        } else {
            badge_text(level)
        };
        let s = style_text(text, Look { hue, emphasis: Emphasis::Bold }, colored);
        push_text(out, s.as_str());
    }

    fn write_simple_message(
        &self,
        out: &mut String,
        level: &Level,
        is_success: bool,
        fields: &[Field],
        colored: bool,
    )
        requires
            fields@.len() >= 1,
        ensures
            final(out)@ == old(out)@ + level_prefix(*level, is_success, colored) + seq![' ']
                + fields@[0].value@,
    {
        self.write_level_prefix(out, level, is_success, colored);
        push_text(out, " ");
        proof {
            reveal_strlit(" ");
        }
        push_text(out, fields[0].value.as_str());
    }

    fn write_cause_line(&self, out: &mut String, cause_value: &str, t: ClockTime, colored: bool)
        requires
            t.wf(),
        ensures
            final(out)@ == old(out)@ + cause_line(self.include_timestamps, cause_value@, t, colored),
    {
        proof {
            reveal(cause_line);
            reveal(aligned);
            reveal(stamp);
        }
        let ghost start = out@;
        if self.include_timestamps {
            self.write_timestamp(out, t, colored);
            push_text(out, " ");
        }
        proof {
            reveal_strlit(" ");
            reveal_strlit("[CAUSE]");
            reveal_strlit("\n");
        }
        let visual_length: usize = 7;
        push_spaces(out, BADGE_WIDTH - visual_length);
        let badge = style_text("[CAUSE]", Look { hue: Hue::Rgb(255, 165, 0), emphasis: Emphasis::Bold }, colored);
        push_text(out, badge.as_str());
        push_text(out, " ");
        push_cause_text(out, cause_value, colored);
        push_text(out, "\n");
        assert(out@ =~= start + cause_line(self.include_timestamps, cause_value@, t, colored));
    }

    /// The text for one event: its line, and a cause line where a `cause`
    /// field is present. `now` is shown where timestamps are on; `colored`
    /// turns styling on.
    #[verifier::rlimit(40)]
    #[verifier::spinoff_prover]
    pub fn format_event(&self, level: Level, fields: &[Field], now: ClockTime, colored: bool) -> (r:
        String)
        requires
            now.wf(),
        ensures
            r@ == event_text(self.include_timestamps, level, field_views(fields@), now, colored),
    {
        proof {
            reveal(event_text);
            reveal(stamp);
        }
        let ghost fv = field_views(fields@);
        let mut out = String::new();
        let is_success = level == Level::Info && has_success_field(fields);
        proof {
            reveal_strlit(" ");
            reveal_strlit("\n");
        }
        if is_simple_message(fields) && !self.include_timestamps {
            self.write_simple_message(&mut out, &level, is_success, fields, colored);
            push_text(&mut out, "\n");
            assert(fv[0] == fields@[0]@);
            assert(out@ =~= event_text(self.include_timestamps, level, fv, now, colored));
            return out;
        }
        if self.include_timestamps {
            self.write_timestamp(&mut out, now, colored);
            push_text(&mut out, " ");
        }
        self.write_level_prefix(&mut out, &level, is_success, colored);
        push_text(&mut out, " ");
        let formatter = FieldFormatter::new(level, is_success, colored);
        formatter.write_fields(&mut out, fields);
        push_text(&mut out, "\n");
        match first_named(fields, "cause") {
            Some(i) => {
                proof {
                    reveal_strlit("cause");
                    assert("cause"@ =~= cause_key());
                }
                self.write_cause_line(&mut out, fields[i].value.as_str(), now, colored);
            },
            None => {
                proof {
                    reveal_strlit("cause");
                    assert("cause"@ =~= cause_key());
                }
            },
        }
        assert(out@ =~= event_text(self.include_timestamps, level, fv, now, colored));
        out
    }

    /// The text for one event, with the local time of day where timestamps
    /// are on, and the time that was used.
    pub fn format_event_now(&self, level: Level, fields: &[Field], colored: bool) -> (r: (
        String,
        ClockTime,
    ))
        ensures
            r.1.wf(),
            r.0@ == event_text(self.include_timestamps, level, field_views(fields@), r.1, colored),
    {
        let now = if self.include_timestamps {
            local_clock()
        } else {
            ClockTime { hour: 0, minute: 0, second: 0 }
        };
        (self.format_event(level, fields, now, colored), now)
    }
}

/// Writes the fields of one event in the style of its level.
pub struct FieldFormatter {
    pub level: Level,
    pub is_success: bool,
    pub colored: bool,
}

impl FieldFormatter {
    /// A field formatter for events at `level`.
    pub fn new(level: Level, is_success: bool, colored: bool) -> (r: Self)
        ensures
            r.level == level,
            r.is_success == is_success,
            r.colored == colored,
    {
        FieldFormatter { level, is_success, colored }
    }

    /// The style of values at `level`.
    pub fn get_value_style(level: Level) -> (r: Look)
        ensures
            r == value_look(level, false),
    {
        Look { hue: level_color(level), emphasis: Emphasis::Italic }
    }

    fn name_style(&self) -> (r: Look)
        ensures
            r == value_look(self.level, self.is_success),
    {
        if self.is_success {
            Look { hue: Hue::Green, emphasis: Emphasis::Italic }
        } else {
            Self::get_value_style(self.level)
        }
    }

    /// Writes the message, then the listed fields.
    pub fn write_fields(&self, out: &mut String, fields: &[Field])
        ensures
            final(out)@ == old(out)@ + fields_text(
                field_views(fields@),
                self.level,
                self.is_success,
                self.colored,
            ),
    {
        proof {
            reveal(fields_text);
            reveal(pairs_text);
        }
        let ghost start = out@;
        let ghost fv = field_views(fields@);
        let count = display_count(fields);
        match first_named(fields, "message") {
            Some(i) => {
                proof {
                    reveal_strlit("message");
                    assert("message"@ =~= message_key());
                }
                push_text(out, fields[i].value.as_str());
            },
            None => {
                proof {
                    reveal_strlit("message");
                    assert("message"@ =~= message_key());
                }
            },
        }
        let ghost after_message = out@;
        let ghost d = display_fields(fv);
        let mut k: usize = 0;
        let mut seen: usize = 0;
        while k < fields.len()
            invariant
                fv == field_views(fields@),
                d == display_fields(fv),
                k <= fields.len(),
                seen == display_fields(fv.take(k as int)).len(),
                count == d.len(),
                out@ == after_message + if count == 1 {
                    if seen == 0 {
                        seq![]
                    } else {
                        ": "@ + value_text(d[0].1, self.level, self.is_success, self.colored)
                    }
                } else {
                    pairs_text(
                        display_fields(fv.take(k as int)),
                        self.level,
                        self.is_success,
                        self.colored,
                    )
                },
            decreases fields.len() - k,
        {
            proof {
                lemma_display_prefix(fv, k as int);
                assert(fv.take(k + 1).drop_last() =~= fv.take(k as int));
                assert(fv.take(k + 1).last() == fv[k as int]);
                assert(fv[k as int] == fields@[k as int]@);
            }
            let ghost dk = display_fields(fv.take(k as int));
            let ghost dk1 = display_fields(fv.take(k + 1));
            let name = fields[k].name.as_str();
            if !(is_message_key(name) || is_success_key(name) || is_cause_key(name)) {
                proof {
                    lemma_display_prefix(fv, k + 1);
                    assert(dk1 == dk.push(fv[k as int]));
                    assert(dk1.drop_last() =~= dk);
                    assert(dk1.last() == fv[k as int]);
                    if count == 1 {
                        assert(dk.len() == 0);
                        assert(dk1[0] == fv[k as int]);
                        assert(d[0] == dk1[0]);
                    } else {
                        assert(pairs_text(dk1, self.level, self.is_success, self.colored) == pairs_text(
                            dk,
                            self.level,
                            self.is_success,
                            self.colored,
                        ) + (if seen == 0 {
                            ": "@
                        } else {
                            ", "@
                        }) + styled(fv[k as int].0, value_look(self.level, self.is_success), self.colored)
                            + "="@ + value_text(fv[k as int].1, self.level, self.is_success, self.colored))
                            by {
                            reveal(pairs_text);
                        }
                    }
                }
                self.write_field(out, name, fields[k].value.as_str(), count, seen == 0);
                seen = seen + 1;
            } else {
                assert(dk1 == dk);
            }
            k = k + 1;
        }
        proof {
            assert(fv.take(k as int) =~= fv);
        }
        assert(out@ =~= start + fields_text(fv, self.level, self.is_success, self.colored));
    }

    /// Writes one listed field: its value alone where it is the only one,
    /// else `name=value`, after `: ` for the first and `, ` for the rest.
    pub fn write_field(&self, out: &mut String, field_name: &str, value: &str, field_count: usize, is_first: bool)
        ensures
            final(out)@ == old(out)@ + if field_count == 1 {
                ": "@ + value_text(value@, self.level, self.is_success, self.colored)
            } else {
                (if is_first { ": "@ } else { ", "@ }) + styled(field_name@, value_look(self.level, self.is_success), self.colored)
                    + "="@ + value_text(value@, self.level, self.is_success, self.colored)
            },
    {
        let ghost start = out@;
        if field_count == 1 {
            push_text(out, ": ");
            self.write_colored_value(out, value);
            assert(out@ =~= start + ": "@ + value_text(value@, self.level, self.is_success, self.colored));
            return;
        }
        let separator = if is_first {
            ": "
        } else {
            ", "
        };
        push_text(out, separator);
        self.write_colored_field(out, field_name, value);
        assert(out@ =~= start + (if is_first { ": "@ } else { ", "@ }) + styled(field_name@, value_look(self.level, self.is_success), self.colored)
                    + "="@ + value_text(value@, self.level, self.is_success, self.colored));
    }

    /// Writes a value in the event's style, with its URLs underlined.
    pub fn write_colored_value(&self, out: &mut String, value: &str)
        ensures
            final(out)@ == old(out)@ + value_text(value@, self.level, self.is_success, self.colored),
    {
        proof {
            reveal(value_text);
        }
        if !contains_url(value) {
            let s = style_text(value, self.name_style(), self.colored);
            push_text(out, s.as_str());
        } else {
            let formatted = self.format_with_urls(value);
            push_text(out, formatted.as_str());
        }
    }

    /// Writes `name=value` in the event's style.
    pub fn write_colored_field(&self, out: &mut String, field_name: &str, value: &str)
        ensures
            final(out)@ == old(out)@ + styled(field_name@, value_look(self.level, self.is_success), self.colored)
                + "="@ + value_text(value@, self.level, self.is_success, self.colored),
    {
        let ghost start = out@;
        let s = style_text(field_name, self.name_style(), self.colored);
        push_text(out, s.as_str());
        push_text(out, "=");
        self.write_colored_value(out, value);
        assert(out@ =~= start + styled(field_name@, value_look(self.level, self.is_success), self.colored)
                + "="@ + value_text(value@, self.level, self.is_success, self.colored));
    }

    /// `value` with its plain text in the event's value style and its URLs
    /// underlined; all of it in the value style where it holds no URL.
    pub fn format_with_urls(&self, value: &str) -> (r: String)
        ensures
            r@ == if has_url(value@) {
                url_aware(
                    value@,
                    value_look(self.level, self.is_success),
                    url_look(self.level, self.is_success),
                    self.colored,
                )
            } else {
                styled(value@, value_look(self.level, self.is_success), self.colored)
            },
    {
        format_urls(value, self.format_by_level(false), self.format_by_level(true), self.colored)
    }

    /// The event's value style, underlined for a URL.
    pub fn format_by_level(&self, is_url: bool) -> (r: Look)
        ensures
            r == if is_url {
                url_look(self.level, self.is_success)
            } else {
                value_look(self.level, self.is_success)
            },
    {
        let style = self.name_style();
        if is_url {
            Look { hue: style.hue, emphasis: Emphasis::Underlined }
        } else {
            style
        }
    }
}

/// How many fields are listed after the message.
fn display_count(fields: &[Field]) -> (r: usize)
    ensures
        r == display_fields(field_views(fields@)).len(),
{
    let ghost fv = field_views(fields@);
    let mut k: usize = 0;
    let mut n: usize = 0;
    while k < fields.len()
        invariant
            fv == field_views(fields@),
            k <= fields.len(),
            n == display_fields(fv.take(k as int)).len(),
            n <= k,
        decreases fields.len() - k,
    {
        proof {
            assert(fv.take(k + 1).drop_last() =~= fv.take(k as int));
            assert(fv.take(k + 1).last() == fv[k as int]);
            assert(fv[k as int] == fields@[k as int]@);
        }
        let name = fields[k].name.as_str();
        if !(is_message_key(name) || is_success_key(name) || is_cause_key(name)) {
            n = n + 1;
        }
        k = k + 1;
    }
    assert(fv.take(k as int) =~= fv);
    n
}

/// Listing a prefix of the fields lists a prefix of the listed fields.
pub proof fn lemma_display_prefix(fv: Seq<(Seq<char>, Seq<char>)>, k: int)
    requires
        0 <= k <= fv.len(),
    ensures
        display_fields(fv.take(k)).len() <= display_fields(fv).len(),
        display_fields(fv.take(k)) =~= display_fields(fv).take(display_fields(fv.take(k)).len() as int),
    decreases fv.len() - k,
{
    if k < fv.len() {
        lemma_display_prefix(fv, k + 1);
        assert(fv.take(k + 1).drop_last() =~= fv.take(k));
    } else {
        assert(fv.take(k) =~= fv);
    }
}

} // verus!
