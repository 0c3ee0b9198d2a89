use orbis::manifest::{is_semver_triplet, is_verification_id, ManifestError, ManifestSet, ToolManifest};
use orbis::model::GameId;
use orbis::tool::{RiskLevel, ToolPermission, ToolType};

fn valid_config_modify() -> String {
    r#"{
      "id": "sample-ns/sample-tool",
      "game": "sample-game",
      "name": "示例工具",
      "description": "面向用户的一句话说明。",
      "version": "0.1.0",
      "type": "config_modify",
      "risk_level": "L1",
      "permissions": ["read_config", "write_config"],
      "requires_admin": false,
      "backup_required": true,
      "entry": { "executor": "sample_executor" },
      "source": { "kind": "builtin", "repo": null, "license": null, "version": null },
      "pending_verifications": []
    }"#
    .to_owned()
}

fn valid_external_process() -> String {
    r#"{
      "id": "sample-ns/sample-unlocker",
      "game": "sample-game",
      "name": "示例解锁",
      "description": "不落盘的运行时工具。",
      "version": "0.1.0",
      "type": "external_process",
      "risk_level": "L3",
      "permissions": ["launch_external", "process_attach"],
      "requires_admin": false,
      "backup_required": false,
      "entry": { "executor": "unlocker", "asset": "sample-asset", "channel": "releases" },
      "source": { "kind": "upstream", "repo": "owner/repo", "license": "MIT", "version": "v1.0.0" },
      "pending_verifications": ["T4a", "T4b"]
    }"#
    .to_owned()
}

#[test]
fn parses_a_config_modify_manifest() {
    let m = ToolManifest::parse(&valid_config_modify()).expect("the sample parses");
    assert_eq!(m.id, "sample-ns/sample-tool");
    assert_eq!(m.tool_type, ToolType::ConfigModify);
    assert_eq!(m.risk_level, RiskLevel::L1);
    assert!(m.backup_required);
    assert!(!m.requires_asset());
    assert!(!m.has_pending_verifications());
    assert_eq!(m.permissions, vec![ToolPermission::ReadConfig, ToolPermission::WriteConfig]);
}

#[test]
fn parses_an_external_process_manifest_with_attribution() {
    let m = ToolManifest::parse(&valid_external_process()).expect("the sample parses");
    assert_eq!(m.tool_type, ToolType::ExternalProcess);
    assert_eq!(m.risk_level, RiskLevel::L3);
    assert!(!m.backup_required);
    assert!(m.requires_asset());
    assert_eq!(m.entry.asset.as_deref(), Some("sample-asset"));
    assert!(m.source.is_attribution_complete());
    assert!(m.has_pending_verifications());
}

#[test]
fn rejects_config_modify_without_mandatory_backup() {
    let json = valid_config_modify().replace("\"backup_required\": true", "\"backup_required\": false");
    match ToolManifest::parse(&json) {
        Err(ManifestError::InvalidField { field, .. }) => assert_eq!(field, "backup_required"),
        other => panic!("expected a refusal, got {other:?}"),
    }
}

#[test]
fn rejects_upstream_source_without_attribution() {
    let json = valid_external_process().replace("\"license\": \"MIT\"", "\"license\": null");
    match ToolManifest::parse(&json) {
        Err(ManifestError::InvalidField { field, .. }) => assert_eq!(field, "source"),
        other => panic!("expected a refusal, got {other:?}"),
    }
}

#[test]
fn rejects_unlocker_without_asset() {
    let json = valid_external_process().replace(", \"asset\": \"sample-asset\", \"channel\": \"releases\"", "");
    match ToolManifest::parse(&json) {
        Err(ManifestError::InvalidField { field, .. }) => assert_eq!(field, "entry"),
        other => panic!("expected a refusal, got {other:?}"),
    }
}

#[test]
fn rejects_bad_identifiers_and_strictness_violations() {
    let bad_id = valid_config_modify().replace("sample-ns/sample-tool", "no-namespace");
    assert!(matches!(ToolManifest::parse(&bad_id), Err(ManifestError::InvalidField { field: "id", .. })));

    let bad_game = valid_config_modify().replace("\"game\": \"sample-game\"", "\"game\": \"Sample Game\"");
    assert!(matches!(ToolManifest::parse(&bad_game), Err(ManifestError::InvalidField { field: "game", .. })));

    for (json, field) in [
        (valid_config_modify().replace("\"config_modify\"", "\"config\""), "type"),
        (valid_config_modify().replace("\"L1\"", "\"l1\""), "risk_level"),
        (valid_config_modify().replace("\"read_config\"", "\"read\""), "permissions"),
    ] {
        match ToolManifest::parse(&json) {
            Err(ManifestError::InvalidField { field: f, .. }) => assert_eq!(f, field),
            other => panic!("field {field} should be refused, got {other:?}"),
        }
    }

    let bad_version = valid_config_modify().replace("\"version\": \"0.1.0\"", "\"version\": \"0.1\"");
    assert!(matches!(
        ToolManifest::parse(&bad_version),
        Err(ManifestError::InvalidField { field: "version", .. })
    ));

    let bad_pending = valid_external_process().replace("\"T4a\"", "\"T4z\"");
    assert!(matches!(
        ToolManifest::parse(&bad_pending),
        Err(ManifestError::InvalidField { field: "pending_verifications", .. })
    ));

    let extra = valid_config_modify().replace("\"name\"", "\"unexpected\": 1, \"name\"");
    assert!(matches!(ToolManifest::parse(&extra), Err(ManifestError::Malformed { .. })));
}

#[test]
fn a_bad_game_is_reported_as_debug_text() {
    let bad_game = valid_config_modify().replace("\"game\": \"sample-game\"", "\"game\": \"Sample \\\"Game\\\"\"");
    let err = ToolManifest::parse(&bad_game).unwrap_err();
    assert_eq!(err.to_string(), "字段 game 非法：须为合法 slug：\"Sample \\\"Game\\\"\"");
}

#[test]
fn one_broken_manifest_does_not_hide_the_others() {
    let good_a = valid_config_modify();
    let good_b = valid_external_process();
    let broken = "{ this is not json";
    let set = ManifestSet::from_sources(&[
        ("a.json", good_a.as_str()),
        ("broken.json", broken),
        ("b.json", good_b.as_str()),
    ]);
    assert_eq!(set.len(), 2);
    assert_eq!(set.rejected().len(), 1);
    assert_eq!(set.rejected()[0].source, "broken.json");
    assert!(set.is_degraded());
    assert!(set.get("sample-ns/sample-tool").is_some());
    assert!(set.get("sample-ns/sample-unlocker").is_some());
}

#[test]
fn duplicate_tool_id_is_rejected_as_conflict() {
    let json = valid_config_modify();
    let set = ManifestSet::from_sources(&[("a.json", json.as_str()), ("b.json", json.as_str())]);
    assert_eq!(set.len(), 1);
    assert!(matches!(set.rejected()[0].error, ManifestError::Conflict { .. }));
    assert_eq!(set.rejected()[0].source, "b.json");
}

#[test]
fn empty_source_list_yields_an_empty_set_without_degradation() {
    let set = ManifestSet::from_sources(&[]);
    assert!(set.is_empty());
    assert!(!set.is_degraded());
}

#[test]
fn builtin_manifests_are_loadable() {
    let set = ManifestSet::builtin();
    assert!(!set.is_empty());
    assert!(!set.is_degraded(), "{:?}", set.rejected());
    for m in set.iter() {
        assert!(GameId::new(&m.game_id).is_some(), "bad game_id {}", m.game_id);
    }
}

#[test]
fn tools_of_a_game_come_in_load_order() {
    let a = valid_config_modify();
    let b = valid_external_process();
    let other = valid_config_modify()
        .replace("sample-ns/sample-tool", "sample-ns/third-tool")
        .replace("\"game\": \"sample-game\"", "\"game\": \"other-game\"");
    let set = ManifestSet::from_sources(&[("a.json", a.as_str()), ("o.json", other.as_str()), ("b.json", b.as_str())]);
    let ids: Vec<&str> = set.for_game("sample-game").iter().map(|m| m.id.as_str()).collect();
    assert_eq!(ids, ["sample-ns/sample-tool", "sample-ns/sample-unlocker"]);
    assert!(set.for_game("no-such-game").is_empty());
}

#[test]
fn version_and_verification_id_shapes() {
    assert!(is_semver_triplet("0.1.0"));
    assert!(is_semver_triplet("10.20.30"));
    assert!(!is_semver_triplet("0.1"));
    assert!(!is_semver_triplet("v0.1.0"));
    assert!(is_verification_id("T4a"));
    assert!(!is_verification_id("T4z"));
}
