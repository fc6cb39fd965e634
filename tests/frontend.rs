use std::collections::HashMap;

use baad_core::config::{get_feature_config, max_level, FeatureConfig, LoggingConfig};
use baad_core::error::{reported_cause, FileError, TracingHandler};
use baad_core::fields::Field;
use baad_core::formatter::ConsoleFormatter;
use baad_core::level::Level;
use baad_core::logger::{
    log_debug, log_error, log_error_from_string, log_info, log_info_with_field,
    log_info_with_fields, log_recoverable_error, log_recoverable_error_from_string, log_trace,
    log_warn, log_warn_with_field, Logger,
};
use baad_core::paths::DataPaths;
use baad_core::writer::{channel, Worker};

fn quiet_config() -> LoggingConfig {
    LoggingConfig { include_timestamps: false, ..LoggingConfig::default() }
}

fn output_of(config: LoggingConfig, body: impl FnOnce(&mut Logger)) -> String {
    let (handle, guard, rx) = channel(64);
    let mut logger = Logger::new(&config, false, handle);
    body(&mut logger);
    drop(guard);
    let mut worker = Worker::new(8192);
    String::from_utf8(worker.drain(&rx, 1000)).unwrap()
}

#[test]
fn default_config_values() {
    let c = LoggingConfig::default();
    assert!(c.enable_console && c.enable_debug && c.include_timestamps && c.enable_async_writer);
    assert!(!c.enable_json && !c.verbose_mode);
    let f = FeatureConfig::from_features();
    assert!(f.logs_enabled && f.debug_enabled && f.error_enabled);
    assert_eq!(get_feature_config(), f);
}

#[test]
fn filter_level_follows_config() {
    let f = FeatureConfig::from_features();
    let mut c = LoggingConfig::default();
    assert_eq!(max_level(&c, &f), Level::Debug);
    c.verbose_mode = true;
    assert_eq!(max_level(&c, &f), Level::Trace);
    c.verbose_mode = false;
    c.enable_debug = false;
    assert_eq!(max_level(&c, &f), Level::Info);
}

#[test]
fn logger_writes_levels_that_pass() {
    let out = output_of(quiet_config(), |l| {
        log_info(l, "hello");
        log_warn(l, "careful");
        log_error(l, "bad");
        log_debug(l, "detail");
        log_trace(l, "hidden");
    });
    assert_eq!(out, "   [INFO] hello\n   [WARN] careful\n  [ERROR] bad\n  [DEBUG] detail\n");
}

#[test]
fn logger_without_debug_drops_debug() {
    let config = LoggingConfig { enable_debug: false, ..quiet_config() };
    let out = output_of(config, |l| {
        log_debug(l, "detail");
        log_error_from_string(l, "kept");
    });
    assert_eq!(out, "  [ERROR] kept\n");
}

#[test]
fn logger_with_console_off_writes_nothing() {
    let config = LoggingConfig { enable_console: false, ..quiet_config() };
    let out = output_of(config, |l| log_error(l, "x"));
    assert_eq!(out, "");
}

#[test]
fn logger_field_goes_into_message() {
    let out = output_of(quiet_config(), |l| {
        log_info_with_field(l, "User logged in", "user_id", "12345");
        log_warn_with_field(l, "Slow", "ms", "900");
    });
    assert_eq!(out, "   [INFO] User logged in: user_id=12345\n   [WARN] Slow: ms=900\n");
}

#[test]
fn logger_fields_map_is_one_field() {
    let mut map = HashMap::new();
    map.insert("k".to_string(), "v".to_string());
    let out = output_of(quiet_config(), |l| log_info_with_fields(l, "msg", &map));
    assert_eq!(out, "   [INFO] msg: {\"k\": \"v\"}\n");
}

#[test]
fn recoverable_error_from_string() {
    let out = output_of(quiet_config(), |l| {
        log_recoverable_error_from_string(l, "boom", "retrying")
    });
    assert_eq!(out, "   [WARN] Recoverable error, continuing: boom: retrying\n");
}

#[test]
fn recoverable_error_with_cause() {
    let report = eyre::Report::msg("inner").wrap_err("outer");
    let out = output_of(quiet_config(), |l| log_recoverable_error(l, &report, "skip"));
    assert_eq!(
        out,
        "   [WARN] Recoverable error, continuing: outer: skip\n  [CAUSE] inner\n"
    );
    let single = eyre::Report::msg("alone");
    let out = output_of(quiet_config(), |l| log_recoverable_error(l, &single, "skip"));
    assert_eq!(out, "   [WARN] Recoverable error, continuing: alone: skip\n");
}

#[test]
fn logger_with_timestamps_stamps_lines() {
    let out = output_of(LoggingConfig::default(), |l| log_info(l, "t"));
    assert_eq!(out.len(), "hh:mm:ss    [INFO] t\n".len());
    assert!(out.ends_with("    [INFO] t\n"));
    assert_eq!(&out[2..3], ":");
}

#[test]
fn format_now_stamps_with_local_time() {
    let f = ConsoleFormatter::new().with_timestamps(true);
    let fields = vec![Field { name: "message".to_string(), value: "now".to_string() }];
    let (text, t) = f.format_event_now(Level::Info, &fields, false);
    assert!(t.hour < 24 && t.minute < 60 && t.second < 60);
    assert_eq!(text, format!("{:02}:{:02}:{:02}    [INFO] now\n", t.hour, t.minute, t.second));
    let (plain, _) = ConsoleFormatter::new().format_event_now(Level::Info, &fields, false);
    assert_eq!(plain, "   [INFO] now\n");
}

#[test]
fn chain_drops_repeated_messages() {
    let h = TracingHandler::new();
    let chain: Vec<String> = ["a", "a", "b", "a", "a"].iter().map(|s| s.to_string()).collect();
    assert_eq!(h.chain_messages(&chain), vec!["a".to_string(), "b".to_string(), "a".to_string()]);
    assert!(h.chain_messages(&Vec::new()).is_empty());
}

#[test]
fn app_name_set_once() {
    let mut p = DataPaths::new();
    assert_eq!(p.app_name(), "baad");
    assert!(p.set_app_name("demo").is_ok());
    assert_eq!(p.app_name(), "demo");
    assert!(matches!(p.set_app_name("other"), Err(FileError::AppNameAlreadySet)));
    assert_eq!(p.app_name(), "demo");
}

#[test]
fn data_dir_set_once() {
    let mut p = DataPaths::new();
    assert!(p.set_data_dir("/tmp/baad-data").is_ok());
    assert_eq!(p.data_dir().unwrap(), "/tmp/baad-data");
    assert!(matches!(p.set_data_dir("/elsewhere"), Err(FileError::DataDirAlreadySet)));
    assert_eq!(p.get_data_path("state.json").unwrap(), "/tmp/baad-data/state.json");
}

#[test]
fn data_dir_falls_back_to_platform() {
    let p = DataPaths::new();
    match p.data_dir() {
        Ok(dir) => assert!(dir.ends_with("baad")),
        Err(e) => assert!(matches!(e, FileError::AppDirectoryCreationFailed)),
    }
    let mut named = DataPaths::new();
    named.set_app_name("otherapp").unwrap();
    if let Ok(dir) = named.data_dir() {
        assert!(dir.ends_with("otherapp"));
    }
}

#[test]
fn cause_reported_only_when_different() {
    assert_eq!(reported_cause("e", Some("c")), Some("c"));
    assert_eq!(reported_cause("e", Some("e")), None);
    assert_eq!(reported_cause("e", None), None);
}

#[test]
fn drain_with_zero_limit_takes_nothing() {
    let (mut handle, guard, rx) = channel(4);
    handle.enqueue_data(b"x".to_vec()).unwrap();
    drop(guard);
    let mut w = Worker::new(1);
    assert!(w.drain(&rx, 0).is_empty());
    assert!(!w.is_finished());
    assert_eq!(w.drain(&rx, 10), b"x".to_vec());
    assert!(w.is_finished());
}
