use baad_core::fields::{Field, FieldCollector};
use baad_core::formatter::{clock_string, format_urls, ClockTime, ConsoleFormatter, FieldFormatter};
use baad_core::level::{get_level_visual_length, level_to_index, Level};
use baad_core::style::{style_text, Emphasis, Hue, Look};
use baad_core::url::{contains_url, split_urls, Span};

fn fields(pairs: &[(&str, &str)]) -> Vec<Field> {
    pairs
        .iter()
        .map(|(n, v)| Field { name: n.to_string(), value: v.to_string() })
        .collect()
}

fn plain(level: Level, pairs: &[(&str, &str)]) -> String {
    let noon = ClockTime { hour: 12, minute: 0, second: 0 };
    ConsoleFormatter::new().format_event(level, &fields(pairs), noon, false)
}

#[test]
fn success_event_uses_success_badge() {
    let out = plain(Level::Info, &[("success", "true"), ("message", "Migration completed")]);
    assert_eq!(out, "[SUCCESS] Migration completed\n");
}

#[test]
fn error_event_lists_fields_after_message() {
    let out = plain(
        Level::Error,
        &[
            ("message", "API endpoint not found"),
            ("url", "https://api.example.com/v1/users"),
            ("status", "404"),
        ],
    );
    assert_eq!(
        out,
        "  [ERROR] API endpoint not found: url=https://api.example.com/v1/users, status=404\n"
    );
}

#[test]
fn cause_field_gets_its_own_line() {
    let out = plain(Level::Error, &[("message", "x"), ("cause", "disk full")]);
    assert_eq!(out, "  [ERROR] x\n  [CAUSE] disk full\n");
    let lines: Vec<&str> = out.lines().map(|l| l.trim_start()).collect();
    assert_eq!(lines, vec!["[ERROR] x", "[CAUSE] disk full"]);
}

#[test]
fn simple_message_is_badge_and_text() {
    assert_eq!(plain(Level::Info, &[("message", "hello")]), "   [INFO] hello\n");
    assert_eq!(plain(Level::Trace, &[("message", "deep")]), "  [TRACE] deep\n");
}

#[test]
fn single_extra_field_shows_value_alone() {
    let out = plain(Level::Warn, &[("message", "Config"), ("count", "42")]);
    assert_eq!(out, "   [WARN] Config: 42\n");
}

#[test]
fn success_only_counts_at_info() {
    let out = plain(Level::Warn, &[("success", "true"), ("message", "done")]);
    assert_eq!(out, "   [WARN] done\n");
    let out = plain(Level::Info, &[("success", "false"), ("message", "done")]);
    assert_eq!(out, "   [INFO] done\n");
}

#[test]
fn first_cause_wins() {
    let out = plain(Level::Error, &[("message", "m"), ("cause", "a"), ("cause", "b")]);
    assert_eq!(out, "  [ERROR] m\n  [CAUSE] a\n");
}

#[test]
fn event_without_message_lists_fields() {
    let out = plain(Level::Debug, &[("a", "1"), ("b", "2")]);
    assert_eq!(out, "  [DEBUG] : a=1, b=2\n");
}

#[test]
fn timestamps_prefix_both_lines() {
    let f = ConsoleFormatter::new().with_timestamps(true);
    let t = ClockTime { hour: 9, minute: 5, second: 7 };
    let out = f.format_event(Level::Info, &fields(&[("message", "hello")]), t, false);
    assert_eq!(out, "09:05:07    [INFO] hello\n");
    let out = f.format_event(
        Level::Error,
        &fields(&[("message", "x"), ("cause", "y")]),
        t,
        false,
    );
    assert_eq!(out, "09:05:07   [ERROR] x\n09:05:07   [CAUSE] y\n");
}

#[test]
fn builder_keeps_other_setting() {
    let f = ConsoleFormatter::new().with_spans(true).with_timestamps(true);
    assert!(f.include_spans && f.include_timestamps);
    let f = f.with_spans(false);
    assert!(!f.include_spans && f.include_timestamps);
}

#[test]
fn colored_badge_and_value() {
    let noon = ClockTime { hour: 12, minute: 0, second: 0 };
    let f = ConsoleFormatter::new();
    let out = f.format_event(Level::Info, &fields(&[("message", "hi")]), noon, true);
    assert_eq!(out, "   \x1b[34;1m[INFO]\x1b[0m hi\n");
    let out = f.format_event(Level::Error, &fields(&[("message", "m"), ("k", "v")]), noon, true);
    assert_eq!(out, "  \x1b[31;1m[ERROR]\x1b[0m m: \x1b[31;3mv\x1b[0m\n");
}

#[test]
fn colored_success_and_pairs() {
    let noon = ClockTime { hour: 12, minute: 0, second: 0 };
    let f = ConsoleFormatter::new();
    let out = f.format_event(
        Level::Info,
        &fields(&[("success", "true"), ("message", "ok"), ("a", "1"), ("b", "2")]),
        noon,
        true,
    );
    assert_eq!(
        out,
        "\x1b[32;1m[SUCCESS]\x1b[0m ok: \x1b[32;3ma\x1b[0m=\x1b[32;3m1\x1b[0m, \x1b[32;3mb\x1b[0m=\x1b[32;3m2\x1b[0m\n"
    );
}

#[test]
fn colored_url_is_underlined() {
    let noon = ClockTime { hour: 12, minute: 0, second: 0 };
    let f = ConsoleFormatter::new();
    let out = f.format_event(
        Level::Info,
        &fields(&[("message", "docs"), ("at", "see https://x.io now")]),
        noon,
        true,
    );
    assert_eq!(
        out,
        "   \x1b[34;1m[INFO]\x1b[0m docs: \x1b[34;3msee \x1b[0m\x1b[34;3;4mhttps://x.io\x1b[0m\x1b[34;3m now\x1b[0m\n"
    );
}

#[test]
fn colored_cause_line() {
    let noon = ClockTime { hour: 12, minute: 0, second: 0 };
    let f = ConsoleFormatter::new();
    let out = f.format_event(Level::Warn, &fields(&[("message", "m"), ("cause", "c")]), noon, true);
    assert_eq!(
        out,
        "   \x1b[33;1m[WARN]\x1b[0m m\n  \x1b[38;2;255;165;0;1m[CAUSE]\x1b[0m \x1b[38;2;255;165;0;3mc\x1b[0m\n"
    );
    let out = f.format_event(
        Level::Warn,
        &fields(&[("message", "m"), ("cause", "at ftp://h/f")]),
        noon,
        true,
    );
    assert_eq!(
        out,
        "   \x1b[33;1m[WARN]\x1b[0m m\n  \x1b[38;2;255;165;0;1m[CAUSE]\x1b[0m \x1b[38;2;255;165;0;3mat \x1b[0m\x1b[38;2;255;165;0;3;4mftp://h/f\x1b[0m\n"
    );
}

#[test]
fn colored_timestamp() {
    let f = ConsoleFormatter::new().with_timestamps(true);
    let t = ClockTime { hour: 23, minute: 59, second: 1 };
    let out = f.format_event(Level::Debug, &fields(&[("message", "z")]), t, true);
    assert_eq!(out, "\x1b[90m23:59:01\x1b[0m   \x1b[36;1m[DEBUG]\x1b[0m z\n");
}

#[test]
fn style_text_wraps_only_when_colored() {
    let look = Look { hue: Hue::Magenta, emphasis: Emphasis::Underlined };
    assert_eq!(style_text("t", look, true), "\x1b[35;3;4mt\x1b[0m");
    assert_eq!(style_text("t", look, false), "t");
}

#[test]
fn field_formatter_urls() {
    let ff = FieldFormatter::new(Level::Error, false, true);
    assert_eq!(
        ff.format_with_urls("a http://b c"),
        "\x1b[31;3ma \x1b[0m\x1b[31;3;4mhttp://b\x1b[0m\x1b[31;3m c\x1b[0m"
    );
    let plain = FieldFormatter::new(Level::Error, false, false);
    assert_eq!(plain.format_with_urls("a http://b c"), "a http://b c");
}

#[test]
fn url_detection() {
    assert!(contains_url("https://api.example.com/v1/users"));
    assert!(contains_url("get ftp://files now"));
    assert!(contains_url("xhttps://a"));
    assert!(!contains_url("http://"));
    assert!(!contains_url("http:// spaced"));
    assert!(!contains_url("no links here"));
    assert!(!contains_url(""));
}

#[test]
fn url_spans_cover_value() {
    let spans = split_urls("go http://a.b/c, then https://d end");
    assert_eq!(
        spans,
        vec![
            Span { is_url: false, start: 0, end: 3 },
            Span { is_url: true, start: 3, end: 16 },
            Span { is_url: false, start: 16, end: 22 },
            Span { is_url: true, start: 22, end: 31 },
            Span { is_url: false, start: 31, end: 35 },
        ]
    );
    assert_eq!(split_urls("http://x"), vec![Span { is_url: true, start: 0, end: 8 }]);
    assert_eq!(split_urls(""), vec![]);
    assert_eq!(split_urls("ab"), vec![Span { is_url: false, start: 0, end: 2 }]);
}

#[test]
fn url_ends_at_unicode_space() {
    let spans = split_urls("http://a\u{3000}b");
    assert_eq!(
        spans,
        vec![Span { is_url: true, start: 0, end: 8 }, Span { is_url: false, start: 8, end: 10 }]
    );
}

#[test]
fn level_indices_and_widths() {
    assert_eq!(level_to_index(&Level::Error), 0);
    assert_eq!(level_to_index(&Level::Trace), 4);
    assert_eq!(get_level_visual_length(&Level::Warn, false), 6);
    assert_eq!(get_level_visual_length(&Level::Debug, false), 7);
    assert_eq!(get_level_visual_length(&Level::Warn, true), 9);
}

#[test]
fn clock_is_zero_padded() {
    assert_eq!(clock_string(ClockTime { hour: 0, minute: 7, second: 30 }), "00:07:30");
}

#[test]
fn collector_records_in_order() {
    let mut c = FieldCollector::new();
    c.record_str("message", "hello");
    c.record_i64("delta", -42);
    c.record_u64("big", 18446744073709551615);
    c.record_bool("success", true);
    c.record_debug("cause", "Some(3)");
    let got: Vec<(String, String)> =
        c.fields().iter().map(|f| (f.name.clone(), f.value.clone())).collect();
    assert_eq!(
        got,
        vec![
            ("message".to_string(), "hello".to_string()),
            ("delta".to_string(), "-42".to_string()),
            ("big".to_string(), "18446744073709551615".to_string()),
            ("success".to_string(), "true".to_string()),
            ("cause".to_string(), "Some(3)".to_string()),
        ]
    );
    assert!(c.has_success_field());
    assert!(!c.is_simple_message());
    assert_eq!(c.get_cause_value(), Some("Some(3)"));
}

#[test]
fn collector_simple_message() {
    let mut c = FieldCollector::new();
    assert!(!c.is_simple_message());
    assert_eq!(c.get_cause_value(), None);
    c.record_str("message", "only");
    assert!(c.is_simple_message());
    assert!(!c.has_success_field());
    c.record_bool("success", false);
    assert!(!c.has_success_field());
}

#[test]
fn collector_beyond_inline_capacity() {
    let mut c = FieldCollector::new();
    for i in 0..10u64 {
        c.record_u64("n", i);
    }
    assert_eq!(c.fields().len(), 10);
    assert_eq!(c.fields()[9].value, "9");
}

#[test]
fn format_urls_styles_pieces() {
    let text = Look { hue: Hue::Cyan, emphasis: Emphasis::Italic };
    let link = Look { hue: Hue::Cyan, emphasis: Emphasis::Underlined };
    assert_eq!(format_urls("plain", text, link, true), "\x1b[36;3mplain\x1b[0m");
    assert_eq!(format_urls("", text, link, true), "\x1b[36;3m\x1b[0m");
    assert_eq!(
        format_urls("https://a b", text, link, true),
        "\x1b[36;3;4mhttps://a\x1b[0m\x1b[36;3m b\x1b[0m"
    );
    assert_eq!(format_urls("x https://a b", text, link, false), "x https://a b");
}

#[test]
fn colored_success_value_underlines_url() {
    let noon = ClockTime { hour: 12, minute: 0, second: 0 };
    let f = ConsoleFormatter::new();
    let out = f.format_event(
        Level::Info,
        &fields(&[("success", "true"), ("message", "ok"), ("docs", "https://x")]),
        noon,
        true,
    );
    assert_eq!(out, "\x1b[32;1m[SUCCESS]\x1b[0m ok: \x1b[32;3;4mhttps://x\x1b[0m\n");
    let ff = FieldFormatter::new(Level::Info, true, true);
    assert_eq!(
        ff.format_with_urls("at ftp://h"),
        "\x1b[32;3mat \x1b[0m\x1b[32;3;4mftp://h\x1b[0m"
    );
}
