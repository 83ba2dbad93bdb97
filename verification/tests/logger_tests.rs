use logcore::config::ConfigError;
use logcore::config::FileSinkDescriptor;
use logcore::config::LogConfig;
use logcore::level::LogLevel;
use logcore::level::compare;
use logcore::level::level_name;
use logcore::level::level_ordinal;
use logcore::level::parse_level;
use logcore::level::passes;
use logcore::logger::LoggerCore;
use logcore::logger::parse_args;
use logcore::render::FormatError;
use logcore::render::RenderHints;
use logcore::render::SinkKind;
use logcore::render::render;
use logcore::text::get_file_name;

fn all_levels() -> Vec<LogLevel> {
    vec![
        LogLevel::Trace,
        LogLevel::Debug,
        LogLevel::Info,
        LogLevel::Warn,
        LogLevel::Error,
    ]
}

#[test]
fn passes_matches_ordinal_order() {
    for &r in all_levels().iter() {
        for &t in all_levels().iter() {
            assert_eq!(passes(r, t), level_ordinal(r) >= level_ordinal(t));
        }
    }
}

#[test]
fn passes_concrete_pairs() {
    assert!(passes(LogLevel::Error, LogLevel::Trace));
    assert!(passes(LogLevel::Info, LogLevel::Info));
    assert!(!passes(LogLevel::Debug, LogLevel::Info));
    assert!(!passes(LogLevel::Trace, LogLevel::Error));
}

#[test]
fn compare_follows_ordinal_order() {
    assert_eq!(compare(LogLevel::Trace, LogLevel::Error), std::cmp::Ordering::Less);
    assert_eq!(compare(LogLevel::Warn, LogLevel::Warn), std::cmp::Ordering::Equal);
    assert_eq!(compare(LogLevel::Error, LogLevel::Debug), std::cmp::Ordering::Greater);
}

#[test]
fn level_names_round_trip() {
    for &l in all_levels().iter() {
        assert_eq!(parse_level(level_name(l)), Some(l));
    }
    assert_eq!(level_name(LogLevel::Warn), "WARN");
}

#[test]
fn parse_level_rejects_unknown_names() {
    assert_eq!(parse_level("LOUD"), None);
    assert_eq!(parse_level("info"), None);
    assert_eq!(parse_level(""), None);
}

#[test]
fn substitution_fills_placeholders_in_order() {
    let args = vec!["alice".to_string(), "bob".to_string()];
    let r = render("{} meets {}", Some(&args), None, SinkKind::Console).unwrap();
    assert_eq!(r, "alice meets bob");
}

#[test]
fn substitution_keeps_extra_placeholders() {
    let args = vec!["alice".to_string()];
    let r = render("{} and {}", Some(&args), None, SinkKind::Console).unwrap();
    assert_eq!(r, "alice and {}");
}

#[test]
fn substitution_ignores_extra_args() {
    let args = vec!["a".to_string(), "b".to_string()];
    let r = render("only {}", Some(&args), None, SinkKind::File).unwrap();
    assert_eq!(r, "only a");
}

#[test]
fn render_round_trip_no_args_no_hints() {
    let template = "untouched {} text";
    let console = render(template, None, None, SinkKind::Console).unwrap();
    let file = render(template, None, None, SinkKind::File).unwrap();
    assert_eq!(console, template);
    assert_eq!(file, template);
}

#[test]
fn file_sink_suppresses_color_hints() {
    let hints = RenderHints { color: Some("red".to_string()) };
    let with_hint = render("warning text", None, Some(&hints), SinkKind::File).unwrap();
    let without = render("warning text", None, None, SinkKind::File).unwrap();
    assert_eq!(with_hint, without);
    assert!(!with_hint.contains('\u{1b}'));
}

#[test]
fn console_color_is_ansi_escape() {
    let hints = RenderHints { color: Some("red".to_string()) };
    let r = render("alert", None, Some(&hints), SinkKind::Console).unwrap();
    assert_eq!(r, "\u{1b}[31malert\u{1b}[39m");
}

#[test]
fn unrecognized_color_falls_back_to_black() {
    let neon = RenderHints { color: Some("neon".to_string()) };
    let black = RenderHints { color: Some("black".to_string()) };
    let rn = render("msg", None, Some(&neon), SinkKind::Console).unwrap();
    let rb = render("msg", None, Some(&black), SinkKind::Console).unwrap();
    assert_eq!(rn, rb);
    assert_eq!(rn, "\u{1b}[30mmsg\u{1b}[39m");
}

#[test]
fn hint_without_color_fails_on_console() {
    let hints = RenderHints { color: None };
    let r = render("msg", None, Some(&hints), SinkKind::Console);
    assert_eq!(r, Err(FormatError::MissingColorKey));
}

#[test]
fn hint_without_color_is_ignored_for_file() {
    let hints = RenderHints { color: None };
    let r = render("msg", None, Some(&hints), SinkKind::File);
    assert_eq!(r, Ok("msg".to_string()));
}

#[test]
fn config_name_wins_over_constructor_name() {
    let config = LogConfig::new(Some("svc".to_string()), None, None, None);
    let logger = LoggerCore::get_logger(Some("other".to_string()), Some(config));
    assert_eq!(logger.config.name.as_deref(), Some("svc"));
    assert!(logger.to_diagnostic_string().contains("\"name\":\"svc\""));
}

#[test]
fn constructor_name_is_reduced_to_basename() {
    let logger = LoggerCore::get_logger(Some("src/app/main.py".to_string()), None);
    assert_eq!(logger.config.name.as_deref(), Some("main.py"));
}

#[test]
fn basename_of_plain_name_is_itself() {
    assert_eq!(get_file_name("worker"), "worker");
    assert_eq!(get_file_name("a/b/c.py"), "c.py");
    assert_eq!(get_file_name(""), "");
}

#[test]
fn default_config_threshold_is_info() {
    let logger = LoggerCore::get_logger(None, None);
    assert_eq!(logger.level, LogLevel::Info);
    assert_eq!(logger.config.name, None);
    assert_eq!(logger.info("hello", None, None), Ok(Some("hello".to_string())));
    assert_eq!(logger.debug("hello", None, None), Ok(None));
    assert_eq!(logger.trace("hello", None, None), Ok(None));
}

#[test]
fn below_threshold_call_produces_no_line() {
    let logger = LoggerCore::get_logger(None, None);
    let args = vec!["ignored".to_string()];
    let hints = RenderHints { color: Some("red".to_string()) };
    assert_eq!(logger.debug("x {}", Some(&args), Some(&hints)), Ok(None));
}

#[test]
fn reload_level_takes_effect_for_subsequent_calls() {
    let mut logger = LoggerCore::get_logger(None, None);
    assert!(matches!(logger.info("before", None, None), Ok(Some(_))));
    logger.reload_level(LogLevel::Error);
    assert_eq!(logger.info("after", None, None), Ok(None));
    assert!(matches!(logger.error("after", None, None), Ok(Some(_))));
}

#[test]
fn set_level_accepts_canonical_names() {
    let mut logger = LoggerCore::get_logger(None, None);
    assert_eq!(logger.set_level("ERROR".to_string()), Ok(()));
    assert_eq!(logger.level, LogLevel::Error);
    assert_eq!(logger.config.level, LogLevel::Error);
}

#[test]
fn set_level_rejects_unknown_name_and_keeps_threshold() {
    let mut logger = LoggerCore::get_logger(None, None);
    assert_eq!(
        logger.set_level("LOUD".to_string()),
        Err(ConfigError::InvalidLevel)
    );
    assert_eq!(logger.level, LogLevel::Info);
    assert!(matches!(logger.info("still on", None, None), Ok(Some(_))));
}

#[test]
fn config_log_level_validates_text() {
    let mut config = LogConfig::new(None, None, None, None);
    assert_eq!(config.log_level("WARN"), Ok(()));
    assert_eq!(config.level, LogLevel::Warn);
    assert_eq!(config.log_level("loud"), Err(ConfigError::InvalidLevel));
    assert_eq!(config.level, LogLevel::Warn);
}

#[test]
fn console_scenario_info_line() {
    let config = LogConfig::new(Some("svc".to_string()), Some(LogLevel::Info), None, None);
    let logger = LoggerCore::get_logger(None, Some(config));
    let args = vec!["alice".to_string()];
    let line = logger.info("user {} logged in", Some(&args), None).unwrap().unwrap();
    assert!(line.contains("user alice logged in"));
    assert!(!line.contains('\u{1b}'));
}

#[test]
fn file_record_is_one_json_object() {
    let sink = FileSinkDescriptor { path: "/tmp/app.log".to_string() };
    let config = LogConfig::new(
        Some("svc".to_string()),
        Some(LogLevel::Info),
        Some("prod".to_string()),
        Some(sink),
    );
    let logger = LoggerCore::new(config);
    let args = vec!["alice".to_string()];
    let line = logger.info("user {} logged in", Some(&args), None).unwrap().unwrap();
    let value: serde_json::Value = serde_json::from_str(&line).unwrap();
    assert_eq!(value["name"], serde_json::Value::String("svc".to_string()));
    assert_eq!(value["level"], serde_json::Value::String("INFO".to_string()));
    assert_eq!(value["app_env"], serde_json::Value::String("prod".to_string()));
    assert_eq!(
        value["message"],
        serde_json::Value::String("user alice logged in".to_string())
    );
    assert_eq!(
        value["config"]["file_sink"],
        serde_json::Value::String("/tmp/app.log".to_string())
    );
    assert!(!line.contains('\u{1b}'));
}

#[test]
fn file_record_escapes_message_text() {
    let sink = FileSinkDescriptor { path: "app.log".to_string() };
    let config = LogConfig::new(None, None, None, Some(sink));
    let logger = LoggerCore::new(config);
    let line = logger.info("a \"quoted\" \\ line\nnext", None, None).unwrap().unwrap();
    let value: serde_json::Value = serde_json::from_str(&line).unwrap();
    assert_eq!(
        value["message"],
        serde_json::Value::String("a \"quoted\" \\ line\nnext".to_string())
    );
    assert_eq!(value["name"], serde_json::Value::Null);
}

#[test]
fn file_sink_logger_ignores_color_hints() {
    let sink = FileSinkDescriptor { path: "app.log".to_string() };
    let config = LogConfig::new(None, None, None, Some(sink));
    let logger = LoggerCore::new(config);
    let hints = RenderHints { color: Some("green".to_string()) };
    let with_hint = logger.warning("w", None, Some(&hints)).unwrap().unwrap();
    let without = logger.warning("w", None, None).unwrap().unwrap();
    assert_eq!(with_hint, without);
}

#[test]
fn diagnostic_string_is_json_snapshot() {
    let config = LogConfig::new(
        Some("svc".to_string()),
        Some(LogLevel::Warn),
        Some("dev".to_string()),
        None,
    );
    let logger = LoggerCore::new(config);
    let dump = logger.to_diagnostic_string();
    let value: serde_json::Value = serde_json::from_str(&dump).unwrap();
    assert_eq!(value["type"], serde_json::Value::String("Logger".to_string()));
    assert_eq!(value["name"], serde_json::Value::String("svc".to_string()));
    assert_eq!(value["level"], serde_json::Value::String("WARN".to_string()));
    assert_eq!(value["config"]["app_env"], serde_json::Value::String("dev".to_string()));
    assert_eq!(value["config"]["file_sink"], serde_json::Value::Null);
}

#[test]
fn diagnostic_never_fails_on_defaults() {
    let logger = LoggerCore::get_logger(None, None);
    let dump = logger.to_diagnostic_string();
    let value: serde_json::Value = serde_json::from_str(&dump).unwrap();
    assert_eq!(value["name"], serde_json::Value::Null);
    assert_eq!(value["level"], serde_json::Value::String("INFO".to_string()));
}

#[test]
fn parse_args_empty_is_none() {
    assert_eq!(parse_args(Vec::new()), None);
    assert_eq!(
        parse_args(vec!["a".to_string()]),
        Some(vec!["a".to_string()])
    );
}

#[test]
fn every_palette_color_renders_its_escape() {
    let cases = [
        ("red", "31"),
        ("green", "32"),
        ("yellow", "33"),
        ("blue", "34"),
        ("magenta", "35"),
        ("cyan", "36"),
        ("white", "37"),
        ("black", "30"),
    ];
    for (name, code) in cases.iter() {
        let hints = RenderHints { color: Some((*name).to_string()) };
        let r = render("x", None, Some(&hints), SinkKind::Console).unwrap();
        assert_eq!(r, format!("\u{1b}[{}mx\u{1b}[39m", code));
    }
}
