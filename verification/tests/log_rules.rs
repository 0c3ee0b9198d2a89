use orbis::log::{
    cleanup_action, cleanup_cutoff, is_leap_year, log_file_name, parse_log_file_date, CivilDate,
    CleanupAction, CleanupReport, LogCategory, LogLevel, LogSource, TraceLevel, DEFAULT_RETENTION_DAYS,
};
use orbis::log_line::{build_line, is_own_target, EventFields};
use serde_json::Value;

const TS: &str = "2026-09-20T10:00:00+08:00";

fn fields(source: &str, category: &str, message: &str) -> EventFields {
    EventFields {
        source: Some(source.to_owned()),
        category: Some(category.to_owned()),
        message: Some(message.to_owned()),
        related_game: Some(String::new()),
        context: Some("null".to_owned()),
    }
}

#[test]
fn source_and_category_slugs_roundtrip_and_reject_unknown() {
    for s in LogSource::ALL {
        assert_eq!(LogSource::from_slug(s.slug()), Some(s));
    }
    for c in LogCategory::ALL {
        assert_eq!(LogCategory::from_slug(c.slug()), Some(c));
    }
    assert_eq!(LogSource::from_slug("app"), None);
    assert_eq!(LogSource::from_slug("Game"), None);
    assert_eq!(LogCategory::from_slug("Diagnose"), None);
    assert_eq!(LogCategory::from_slug(""), None);
}

#[test]
fn log_level_collapses_tracing_levels_to_three() {
    assert_eq!(LogLevel::from_tracing(TraceLevel::Error), LogLevel::Error);
    assert_eq!(LogLevel::from_tracing(TraceLevel::Warn), LogLevel::Warn);
    assert_eq!(LogLevel::from_tracing(TraceLevel::Info), LogLevel::Info);
    assert_eq!(LogLevel::from_tracing(TraceLevel::Debug), LogLevel::Info);
    assert_eq!(LogLevel::from_tracing(TraceLevel::Trace), LogLevel::Info);
    assert_eq!(LogLevel::Error.slug(), "ERROR");
    assert_eq!(LogLevel::Warn.slug(), "WARN");
    assert_eq!(LogLevel::Info.slug(), "INFO");
}

#[test]
fn civil_date_conversion_matches_known_dates() {
    for (days, iso) in [
        (0i64, "1970-01-01"),
        (19_723, "2024-01-01"),
        (20_000, "2024-10-04"),
        (20_454, "2026-01-01"),
        (20_716, "2026-09-20"),
    ] {
        assert_eq!(CivilDate::from_unix_days(days).to_iso(), iso, "days={days}");
    }
    for days in [-1i64, 0, 1, 11_017, 20_716, 29_000] {
        assert_eq!(CivilDate::from_unix_days(days).to_unix_days(), days, "days={days}");
    }
}

#[test]
fn civil_date_handles_leap_years_and_epoch_boundary() {
    assert!(is_leap_year(2000));
    assert!(!is_leap_year(1900));
    assert!(is_leap_year(2024));
    assert_eq!(CivilDate::parse_iso("2024-02-29").map(|d| d.to_iso()), Some("2024-02-29".into()));
    assert_eq!(CivilDate::parse_iso("2023-02-29"), None);
    assert_eq!(CivilDate::from_unix_days(-1).to_iso(), "1969-12-31");
    assert_eq!(CivilDate::from_unix_days(0).to_iso(), "1970-01-01");
    let d = CivilDate::parse_iso("2026-01-01").unwrap();
    assert_eq!(d.add_days(-1).to_iso(), "2025-12-31");
    let d = CivilDate::parse_iso("2026-03-01").unwrap();
    assert_eq!(d.add_days(-14).to_iso(), "2026-02-15");
}

#[test]
fn parse_iso_is_strict() {
    for bad in [
        "2026-9-20",
        "2026/09/20",
        "26-09-20",
        "2026-13-01",
        "2026-00-10",
        "2026-09-00",
        "2026-09-31",
        "",
        "abcd-ef-gh",
    ] {
        assert_eq!(CivilDate::parse_iso(bad), None, "should reject {bad:?}");
    }
}

#[test]
fn log_file_name_roundtrips_and_rejects_decoys() {
    let today = CivilDate::from_unix_days(0);
    assert_eq!(log_file_name(today), format!("orbis.{}.log", today.to_iso()));

    let date = CivilDate::parse_iso("2026-09-20").unwrap();
    assert_eq!(parse_log_file_date(&log_file_name(date)), Some(date));

    for decoy in [
        "orbis.log",
        "orbis.2026-9-20.log",
        "orbis.2026-09-20.txt",
        "other.2026-09-20.log",
        "orbis.2026-09-20.log.old",
        "orbis.2026-13-01.log",
        "orbis.db",
        "",
    ] {
        assert_eq!(parse_log_file_date(decoy), None, "not a log: {decoy:?}");
    }
}

#[test]
fn renders_the_documented_schema_with_fixed_key_order() {
    let event = EventFields {
        source: Some("tool".to_owned()),
        category: Some("detect".to_owned()),
        message: Some("工具被拒，该工具不可见".to_owned()),
        related_game: Some("sample-game".to_owned()),
        context: Some("{\"source_file\":\"broken.json\",\"reason\":\"malformed\"}".to_owned()),
    };
    let line = build_line(LogLevel::Warn, TS, &event).expect("a complete event renders");

    let value: Value = serde_json::from_str(&line).expect("the line is JSON");
    let object = value.as_object().expect("the line is an object");
    let expected_keys = [
        "\"ts\"",
        "\"source\"",
        "\"category\"",
        "\"level\"",
        "\"message\"",
        "\"context\"",
        "\"related_game\"",
    ];
    let positions: Vec<usize> = expected_keys
        .iter()
        .map(|key| line.find(key).unwrap_or_else(|| panic!("missing {key}: {line}")))
        .collect();
    assert!(positions.windows(2).all(|pair| pair[0] < pair[1]), "{line}");
    assert_eq!(object.len(), expected_keys.len());

    assert_eq!(object["ts"], Value::String(TS.to_owned()));
    assert_eq!(object["source"], Value::String("tool".to_owned()));
    assert_eq!(object["category"], Value::String("detect".to_owned()));
    assert_eq!(object["level"], Value::String("WARN".to_owned()));
    assert_eq!(object["message"], Value::String("工具被拒，该工具不可见".to_owned()));
    assert_eq!(object["related_game"], Value::String("sample-game".to_owned()));
    assert_eq!(object["context"]["source_file"], Value::String("broken.json".to_owned()));
    assert_eq!(object["context"]["reason"], Value::String("malformed".to_owned()));
}

#[test]
fn global_actions_and_missing_context_render_as_null() {
    let line = build_line(LogLevel::Info, TS, &fields("update", "version", "版本探测批次完成")).unwrap();
    let value: Value = serde_json::from_str(&line).unwrap();
    assert_eq!(value["related_game"], Value::Null);
    assert_eq!(value["context"], Value::Null);

    let absent = EventFields { related_game: None, context: None, ..fields("update", "version", "x") };
    let value: Value = serde_json::from_str(&build_line(LogLevel::Info, TS, &absent).unwrap()).unwrap();
    assert_eq!(value["related_game"], Value::Null);
    assert_eq!(value["context"], Value::Null);
}

#[test]
fn a_context_that_is_not_json_is_kept_as_text() {
    let event = EventFields { context: Some("not { json".to_owned()), ..fields("game", "launch", "x") };
    let value: Value = serde_json::from_str(&build_line(LogLevel::Info, TS, &event).unwrap()).unwrap();
    assert_eq!(value["context"], Value::String("not { json".to_owned()));
}

#[test]
fn the_exact_line_of_a_simple_event() {
    let line = build_line(LogLevel::Error, TS, &fields("game", "launch", "a \"quoted\" word")).unwrap();
    assert_eq!(
        line,
        "{\"ts\":\"2026-09-20T10:00:00+08:00\",\"source\":\"game\",\"category\":\"launch\",\
         \"level\":\"ERROR\",\"message\":\"a \\\"quoted\\\" word\",\"context\":null,\"related_game\":null}"
    );
}

#[test]
fn levels_map_to_the_three_documented_buckets() {
    let levels: Vec<String> = [LogLevel::Info, LogLevel::Warn, LogLevel::Error]
        .into_iter()
        .map(|level| {
            let line = build_line(level, TS, &fields("game", "launch", "x")).unwrap();
            let value: Value = serde_json::from_str(&line).unwrap();
            value["level"].as_str().unwrap().to_owned()
        })
        .collect();
    assert_eq!(levels, vec!["INFO", "WARN", "ERROR"]);
}

#[test]
fn events_missing_source_or_category_are_rejected_visibly() {
    let bare = EventFields { source: None, category: None, ..fields("tool", "detect", "没有 source/category") };
    assert_eq!(build_line(LogLevel::Warn, TS, &bare), None);
    assert_eq!(build_line(LogLevel::Warn, TS, &fields("app", "detect", "非法 source")), None);
    assert_eq!(build_line(LogLevel::Warn, TS, &fields("tool", "Detect", "x")), None);
}

#[test]
fn third_party_targets_are_ignored() {
    assert!(!is_own_target("hyper::proto"));
    assert!(!is_own_target("orb"));
    assert!(is_own_target("orbis"));
    assert!(is_own_target("orbis::commands"));
}

#[test]
fn cleanup_removes_only_expired_own_logs() {
    let today = CivilDate::parse_iso("2026-09-20").unwrap();
    let cutoff = cleanup_cutoff(today, DEFAULT_RETENTION_DAYS);
    assert_eq!(cleanup_action(&log_file_name(today), cutoff), CleanupAction::Retain);
    assert_eq!(cleanup_action(&log_file_name(today.add_days(-14)), cutoff), CleanupAction::Retain);
    assert_eq!(cleanup_action(&log_file_name(today.add_days(-15)), cutoff), CleanupAction::Remove);
    assert_eq!(cleanup_action(&log_file_name(today.add_days(-30)), cutoff), CleanupAction::Remove);
    for decoy in ["other.2020-01-01.log", "orbis.not-a-date.log", "orbis.2020-01-01.txt", "notes.md"] {
        assert_eq!(cleanup_action(decoy, cutoff), CleanupAction::Ignore, "{decoy}");
    }
}

#[test]
fn zero_retention_keeps_only_today() {
    let today = CivilDate::parse_iso("2026-03-01").unwrap();
    let cutoff = cleanup_cutoff(today, 0);
    assert_eq!(cutoff, today);
    assert_eq!(cleanup_action(&log_file_name(today), cutoff), CleanupAction::Retain);
    assert_eq!(cleanup_action(&log_file_name(today.add_days(-1)), cutoff), CleanupAction::Remove);
}

#[test]
fn cleanup_on_a_missing_directory_is_not_an_error() {
    let report = CleanupReport::new();
    assert!(report.is_clean());
    assert!(report.removed.is_empty());
    assert_eq!(report.retained, 0);
}

#[test]
fn a_name_that_reads_as_a_date_is_the_log_name_of_that_date() {
    for name in ["orbis.2026-09-20.log", "orbis.0000-01-01.log", "orbis.2024-02-29.log", "orbis.9999-12-31.log"] {
        let date = parse_log_file_date(name).expect("a log name");
        assert_eq!(log_file_name(date), name);
    }
    for name in ["orbis.2026-9-20.log", "orbis.+026-09-20.log", "orbis.2026-09-20.txt", "orbis.2025-02-29.log"] {
        assert_eq!(parse_log_file_date(name), None);
    }
}

#[test]
fn a_message_is_escaped_as_a_json_string() {
    let line = build_line(LogLevel::Info, TS, &fields("game", "launch", "a\\b\n\t\r\u{8}\u{c}\u{1}\u{1f}\u{7f}é")).unwrap();
    assert!(line.contains("\"message\":\"a\\\\b\\n\\t\\r\\b\\f\\u0001\\u001f\u{7f}é\","), "{line}");
}
