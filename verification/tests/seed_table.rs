use orbis::compat::{query, CompatStatus, MatchKind, VersionMatch};
use orbis::compat::CompatRecord;
use orbis::json::JsonValue;
use orbis::seed::{convert_entry, SeedError, SeedTable, SUPPORTED_SCHEMA_VERSION};
use orbis::model::GameId;
use orbis::tool::is_valid_tool_id;
use orbis::version::{is_prefix_key, normalize, Version};

const SAMPLE: &str = r#"{
  "schema_version": "0.1.0",
  "updated_at": "2026-09-18",
  "maintainer": "orbis-maintainer",
  "entries": [
    {
      "game_id": "sample-game",
      "tool_id": "sample-ns/sample-tool",
      "risk_level": "L1",
      "compatibility": [
        {
          "game_version": "2.7",
          "status": "Verified",
          "verified_at": "2026-09-18",
          "verified_by": "P0-X §6.3",
          "evidence": ["source-a", "source-b"],
          "notes": "直接写数值"
        },
        {
          "game_version": "3.x",
          "version_match": "prefix",
          "status": "Unknown",
          "notes": "未实测"
        }
      ]
    }
  ]
}"#;

#[test]
fn parses_a_well_formed_table_and_preserves_verification_metadata() {
    let table = SeedTable::parse(SAMPLE).expect("sample table parses");
    assert_eq!(table.schema_version(), Some("0.1.0"));
    assert_eq!(table.maintainer(), Some("orbis-maintainer"));
    assert_eq!(table.updated_at(), Some("2026-09-18"));
    assert!(!table.is_degraded());

    let entry = table.entry("sample-game", "sample-ns/sample-tool").expect("entry present");
    assert_eq!(entry.compatibility.len(), 2);

    let exact = &entry.compatibility[0];
    assert_eq!(exact.version_match, VersionMatch::Exact);
    assert_eq!(exact.status, CompatStatus::Verified);
    assert_eq!(exact.verified_at.as_deref(), Some("2026-09-18"));
    assert_eq!(exact.verified_by.as_deref(), Some("P0-X §6.3"));
    assert_eq!(exact.evidence.len(), 2);

    let prefix = &entry.compatibility[1];
    assert_eq!(prefix.version_match, VersionMatch::Prefix);
    assert!(prefix.evidence.is_empty());
    assert!(prefix.verified_at.is_none());
}

#[test]
fn loaded_records_feed_the_compat_engine_end_to_end() {
    let table = SeedTable::parse(SAMPLE).unwrap();
    let entry = table.entry("sample-game", "sample-ns/sample-tool");

    let hit = query(entry, normalize("2.7.1.9"));
    assert_eq!(hit.status, CompatStatus::Verified);
    assert_eq!(hit.match_kind, MatchKind::Exact);
    assert_eq!(hit.verified_at.as_deref(), Some("2026-09-18"));
    assert_eq!(hit.verified_by.as_deref(), Some("P0-X §6.3"));

    assert_eq!(query(entry, normalize("3.4")).status, CompatStatus::Unknown);
    assert_eq!(query(entry, normalize("3.4")).match_kind, MatchKind::Prefix);
}

#[test]
fn degraded_table_makes_every_query_unknown() {
    let table = SeedTable::empty();
    assert!(table.is_degraded());
    assert_eq!(table.schema_version(), None);
    assert!(table.entries().is_empty());

    let hit = query(table.entry("sample-game", "sample-ns/sample-tool"), normalize("2.7"));
    assert_eq!(hit.status, CompatStatus::Unknown);
    assert_eq!(hit.match_kind, MatchKind::Unmatched);
    assert!(hit.verified_at.is_none());
}

#[test]
fn unsupported_schema_version_is_rejected_not_guessed() {
    let json = SAMPLE.replace("\"0.1.0\"", "\"0.2.0\"");
    match SeedTable::parse(&json) {
        Err(SeedError::UnsupportedSchema { found, expected }) => {
            assert_eq!(found, "0.2.0");
            assert_eq!(expected, SUPPORTED_SCHEMA_VERSION);
        }
        other => panic!("expected a schema mismatch, got {other:?}"),
    }
}

#[test]
fn unsupported_schema_message_shows_both_versions() {
    let json = SAMPLE.replace("\"0.1.0\"", "\"0.2.0\"");
    let err = SeedTable::parse(&json).unwrap_err();
    assert_eq!(
        err.to_string(),
        "seed schema_version 不符：文件为 \"0.2.0\"，加载器支持 \"0.1.0\""
    );
}

#[test]
fn malformed_json_is_rejected() {
    assert!(matches!(SeedTable::parse("{ not json"), Err(SeedError::Malformed { .. })));
    let with_extra = SAMPLE.replace("\"maintainer\"", "\"unexpected_field\": 1, \"maintainer\"");
    assert!(matches!(SeedTable::parse(&with_extra), Err(SeedError::Malformed { .. })));
}

#[test]
fn invalid_entries_report_their_index() {
    let bad_tool = SAMPLE.replace("sample-ns/sample-tool", "no-namespace");
    match SeedTable::parse(&bad_tool) {
        Err(SeedError::InvalidEntry { index, detail }) => {
            assert_eq!(index, 0);
            assert!(detail.contains("tool_id"), "detail={detail}");
        }
        other => panic!("expected an invalid tool_id, got {other:?}"),
    }

    let bad_status = SAMPLE.replace("\"Verified\"", "\"verified\"");
    assert!(matches!(SeedTable::parse(&bad_status), Err(SeedError::InvalidEntry { .. })));

    let bad_risk = SAMPLE.replace("\"L1\"", "\"L9\"");
    assert!(matches!(SeedTable::parse(&bad_risk), Err(SeedError::InvalidEntry { .. })));
}

#[test]
fn version_key_shape_must_match_the_match_kind() {
    let bad_prefix = SAMPLE.replace("\"game_version\": \"3.x\"", "\"game_version\": \"3.5\"");
    assert!(matches!(SeedTable::parse(&bad_prefix), Err(SeedError::InvalidEntry { .. })));

    let bad_exact = SAMPLE.replace("\"game_version\": \"2.7\"", "\"game_version\": \"2.x\"");
    assert!(matches!(SeedTable::parse(&bad_exact), Err(SeedError::InvalidEntry { .. })));
}

#[test]
fn empty_compatibility_list_is_rejected() {
    let json = r#"{
      "schema_version": "0.1.0",
      "updated_at": "2026-09-18",
      "entries": [
        { "game_id": "sample-game", "tool_id": "sample-ns/sample-tool", "compatibility": [] }
      ]
    }"#;
    assert!(matches!(SeedTable::parse(json), Err(SeedError::InvalidEntry { .. })));
}

#[test]
fn version_match_defaults_to_exact_when_absent() {
    let json = r#"{
      "schema_version": "0.1.0",
      "updated_at": "2026-09-18",
      "entries": [
        {
          "game_id": "sample-game",
          "tool_id": "sample-ns/sample-tool",
          "compatibility": [
            { "game_version": "2.7", "status": "Verified" },
            { "game_version": "4.1", "version_match": "exact", "status": "Unknown" }
          ]
        }
      ]
    }"#;
    let table = SeedTable::parse(json).expect("absent version_match parses");
    let entry = table.entry("sample-game", "sample-ns/sample-tool").unwrap();
    assert_eq!(entry.compatibility[0].version_match, VersionMatch::Exact);
    assert_eq!(entry.compatibility[1].version_match, VersionMatch::Exact);
}

#[test]
fn exact_record_with_prefix_shaped_key_is_rejected() {
    let json = r#"{
      "schema_version": "0.1.0",
      "updated_at": "2026-09-18",
      "entries": [
        {
          "game_id": "sample-game",
          "tool_id": "sample-ns/sample-tool",
          "compatibility": [ { "game_version": "3.x", "status": "Unknown" } ]
        }
      ]
    }"#;
    assert!(matches!(SeedTable::parse(json), Err(SeedError::InvalidEntry { .. })));
}

#[test]
fn degraded_load_returns_empty_table_plus_reason() {
    let (table, err) = SeedTable::parse_or_degraded("{ broken");
    assert!(matches!(err, Some(SeedError::Malformed { .. })));
    assert!(table.is_degraded());
    assert!(table.entries().is_empty());
    assert_eq!(table.schema_version(), None);
}

#[test]
fn builtin_seed_is_loadable() {
    let table = SeedTable::builtin().expect("the built-in table loads");
    assert_eq!(table.schema_version(), Some(SUPPORTED_SCHEMA_VERSION));
    assert!(!table.is_empty());
    assert!(!table.is_degraded());

    let (_, err) = SeedTable::builtin_or_degraded();
    assert!(err.is_none(), "built-in data must not degrade: {err:?}");
}

#[test]
fn a_missing_entry_is_absent_not_guessed() {
    let table = SeedTable::parse(SAMPLE).unwrap();
    assert!(table.entry("sample-game", "sample-ns/other-tool").is_none());
    assert!(table.entry("other-game", "sample-ns/sample-tool").is_none());
}

#[test]
fn every_loaded_entry_obeys_the_rules_of_the_table() {
    for table in [SeedTable::builtin().unwrap(), SeedTable::parse(SAMPLE).unwrap()] {
        for entry in table.entries() {
            assert!(GameId::new(&entry.game_id).is_some());
            assert!(is_valid_tool_id(&entry.tool_id));
            assert!(!entry.compatibility.is_empty());
            for record in &entry.compatibility {
                match record.version_match {
                    VersionMatch::Exact => assert!(Version::parse(&record.game_version).is_some()),
                    VersionMatch::Prefix => assert!(is_prefix_key(&record.game_version)),
                }
            }
        }
    }
}

#[test]
fn a_degraded_table_is_the_empty_table() {
    let (table, err) = SeedTable::parse_or_degraded("{ broken");
    assert!(err.is_some());
    assert_eq!(table, SeedTable::empty());
    assert_eq!(table.updated_at(), None);
    assert_eq!(table.maintainer(), None);
    let (table, err) = SeedTable::builtin_or_degraded();
    assert_eq!(err.is_none(), !table.is_degraded());
}

fn text(s: &str) -> JsonValue {
    JsonValue::Str(s.to_owned())
}

fn entry_object(game_id: &str, records: Vec<JsonValue>) -> JsonValue {
    JsonValue::Object(vec![
        ("game_id".to_owned(), text(game_id)),
        ("tool_id".to_owned(), text("sample-ns/sample-tool")),
        ("risk_level".to_owned(), text("L1")),
        ("compatibility".to_owned(), JsonValue::Array(records)),
    ])
}

fn record_object(key: &str, kind: &str) -> JsonValue {
    JsonValue::Object(vec![
        ("game_version".to_owned(), text(key)),
        ("version_match".to_owned(), text(kind)),
        ("status".to_owned(), text("Verified")),
    ])
}

#[test]
fn an_entry_object_converts_or_reports_its_own_index() {
    let entry = convert_entry(4, &entry_object("sample-game", vec![record_object("2.7", "exact"), record_object("3.x", "prefix")]))
        .expect("a valid entry");
    assert_eq!(entry.game_id, "sample-game");
    assert_eq!(entry.tool_id, "sample-ns/sample-tool");
    assert_eq!(
        entry.compatibility,
        vec![CompatRecord::exact("2.7", CompatStatus::Verified), CompatRecord::prefix("3.x", CompatStatus::Verified)]
    );

    assert!(matches!(
        convert_entry(4, &entry_object("Not A Slug", vec![record_object("2.7", "exact")])),
        Err(SeedError::InvalidEntry { index: 4, .. })
    ));
    assert!(matches!(
        convert_entry(2, &entry_object("sample-game", vec![])),
        Err(SeedError::InvalidEntry { index: 2, .. })
    ));
    assert!(matches!(
        convert_entry(1, &entry_object("sample-game", vec![record_object("3.x", "exact")])),
        Err(SeedError::InvalidEntry { index: 1, .. })
    ));
    assert!(matches!(
        convert_entry(0, &entry_object("sample-game", vec![record_object("3.1", "prefix")])),
        Err(SeedError::InvalidEntry { index: 0, .. })
    ));
}
