use orbis::assets::AssetCatalog;
use orbis::contract::{compatibility, list_tools};
use orbis::dto::{game_catalog_entries, AppSettingsDto};
use orbis::catalog::game_catalog;
use orbis::db::AppSettings;
use orbis::manifest::ManifestSet;
use orbis::seed::SeedTable;
use orbis::tools::BuiltinData;
use orbis::version::Version;

const SEED: &str = r#"{
  "schema_version": "0.1.0",
  "updated_at": "2026-09-18",
  "entries": [
    {
      "game_id": "sample-game",
      "tool_id": "sample-ns/sample-tool",
      "risk_level": "L1",
      "compatibility": [
        { "game_version": "2.7", "status": "Verified", "verified_at": "2026-09-18", "verified_by": "P0-X" },
        { "game_version": "3.x", "version_match": "prefix", "status": "Unknown" }
      ]
    }
  ]
}"#;

const CONFIG_MODIFY: &str = r#"{
  "id": "sample-ns/sample-tool",
  "game": "sample-game",
  "name": "示例修改",
  "description": "示例说明。",
  "version": "0.1.0",
  "type": "config_modify",
  "risk_level": "L1",
  "permissions": ["read_config", "write_config"],
  "requires_admin": false,
  "backup_required": true,
  "entry": { "executor": "sample_executor" },
  "source": { "kind": "builtin" },
  "pending_verifications": ["T4a"]
}"#;

const EXTERNAL_PROCESS: &str = r#"{
  "id": "sample-ns/sample-unlocker",
  "game": "other-game",
  "name": "示例解锁",
  "description": "运行时工具。",
  "version": "0.1.0",
  "type": "external_process",
  "risk_level": "L3",
  "permissions": ["launch_external", "process_attach"],
  "requires_admin": false,
  "backup_required": false,
  "entry": { "executor": "unlocker", "asset": "sample-asset", "channel": "releases" },
  "source": { "kind": "upstream", "repo": "owner/repo", "license": "MIT", "version": "v1.0.0" },
  "pending_verifications": []
}"#;

const ASSETS: &str = r#"{
  "schema_version": "0.1.0",
  "updated_at": "2026-09-18",
  "assets": [
    {
      "asset_key": "sample-asset",
      "tool_id": "sample-ns/sample-unlocker",
      "channel": "releases",
      "upstream": { "repo": "owner/repo", "license": "MIT", "version": "v1.0.0" },
      "artifacts": []
    }
  ]
}"#;

fn data() -> BuiltinData {
    BuiltinData {
        seed: SeedTable::parse(SEED).expect("the sample table parses"),
        manifests: ManifestSet::from_sources(&[("tool.json", CONFIG_MODIFY), ("unlocker.json", EXTERNAL_PROCESS)]),
        assets: AssetCatalog::parse(ASSETS).expect("the sample index parses"),
        issues: Vec::new(),
        degradations: Vec::new(),
    }
}

fn always_enabled(_: &str) -> bool {
    true
}

#[test]
fn maps_the_static_manifest_fields_verbatim() {
    let tools = list_tools(&data(), Some("sample-game"), &always_enabled);
    assert_eq!(tools.len(), 1);
    let tool = &tools[0];
    assert_eq!(tool.id, "sample-ns/sample-tool");
    assert_eq!(tool.game_id, "sample-game");
    assert_eq!(tool.name, "示例修改");
    assert_eq!(tool.tool_type, "config_modify");
    assert_eq!(tool.risk_level, "L1");
    assert_eq!(tool.permissions, vec!["read_config", "write_config"]);
    assert!(tool.backup_required);
    assert_eq!(tool.pending_verifications, vec!["T4a"]);
    assert_eq!(tool.source.kind, "builtin");
    assert!(tool.asset.is_none());
}

#[test]
fn game_filter_returns_only_that_game() {
    let data = data();
    assert_eq!(list_tools(&data, None, &always_enabled).len(), 2);
    assert_eq!(list_tools(&data, Some("other-game"), &always_enabled).len(), 1);
    assert!(list_tools(&data, Some("absent-game"), &always_enabled).is_empty());
}

#[test]
fn enabled_flag_comes_from_the_caller() {
    let data = data();
    let only_second = |id: &str| id == "sample-ns/sample-unlocker";
    let tools = list_tools(&data, None, &only_second);
    let by_id = |id: &str| tools.iter().find(|t| t.id == id).expect("the tool is listed");
    assert!(!by_id("sample-ns/sample-tool").enabled);
    assert!(by_id("sample-ns/sample-unlocker").enabled);
}

#[test]
fn compat_uses_the_seed_and_falls_to_unknown_without_an_installation() {
    let data = data();
    let no_local = list_tools(&data, Some("sample-game"), &always_enabled).remove(0).compat;
    assert_eq!(no_local.status, "unknown");
    assert_eq!(no_local.match_kind, "none");
    assert!(no_local.matched_version_key.is_none());
    assert!(no_local.verified_at.is_none());
    assert_eq!(no_local.seed_schema_version.as_deref(), Some("0.1.0"));

    let exact = compatibility(&data.seed, "sample-game", "sample-ns/sample-tool", Version::parse("2.7"));
    assert_eq!(exact.status, "verified");
    assert_eq!(exact.match_kind, "exact");
    assert_eq!(exact.verified_at.as_deref(), Some("2026-09-18"));

    let prefix = compatibility(&data.seed, "sample-game", "sample-ns/sample-tool", Version::parse("3.4"));
    assert_eq!(prefix.status, "unknown");
    assert_eq!(prefix.match_kind, "prefix");
    assert_eq!(prefix.matched_version_key.as_deref(), Some("3.x"));
}

#[test]
fn degraded_seed_reports_unknown_and_a_null_schema_version() {
    let mut data = data();
    data.seed = SeedTable::empty();
    let compat = compatibility(&data.seed, "sample-game", "sample-ns/sample-tool", None);
    assert_eq!(compat.status, "unknown");
    assert_eq!(compat.match_kind, "none");
    assert!(compat.seed_schema_version.is_none());
}

#[test]
fn external_process_carries_an_asset_that_is_not_yet_downloadable() {
    let tools = list_tools(&data(), Some("other-game"), &always_enabled);
    let asset = tools[0].asset.as_ref().expect("an external process has an asset");
    assert_eq!(asset.asset_key, "sample-asset");
    assert_eq!(asset.state, "missing");
    assert!(!asset.download_url_configured);
    assert!(asset.expected_sha256.is_none());
    assert!(asset.sha256.is_none());
    assert!(asset.installed_path.is_none());
}

#[test]
fn a_tool_whose_asset_is_absent_from_the_catalog_stays_visible() {
    let mut data = data();
    data.assets = AssetCatalog::empty();
    let tools = list_tools(&data, Some("other-game"), &always_enabled);
    assert_eq!(tools.len(), 1);
    assert!(!tools[0].asset.as_ref().unwrap().download_url_configured);
}

// ── catalog entries and settings ───────────────────────────────────────

fn data_with(manifests: ManifestSet) -> BuiltinData {
    BuiltinData {
        seed: SeedTable::empty(),
        manifests,
        assets: AssetCatalog::empty(),
        issues: Vec::new(),
        degradations: Vec::new(),
    }
}

#[test]
fn catalog_entries_carry_every_static_field() {
    let entries = game_catalog_entries(&data_with(ManifestSet::from_sources(&[])));
    let catalog = game_catalog();
    assert_eq!(entries.len(), catalog.len());
    for (entry, dto) in catalog.iter().zip(&entries) {
        assert_eq!(dto.id, entry.id);
        assert_eq!(dto.name, entry.name);
        assert_eq!(dto.en_name, entry.en_name);
        assert_eq!(dto.publisher, entry.publisher);
        assert_eq!(dto.regions, entry.regions.iter().map(|r| r.slug()).collect::<Vec<_>>());
        assert_eq!(dto.official_url.as_deref(), entry.official_url);
        assert!(!dto.regions.is_empty());
    }
}

#[test]
fn bundled_component_is_derived_from_manifests_not_hardcoded() {
    let target = game_catalog()[0].id;
    let external = EXTERNAL_PROCESS.replace("other-game", target);

    let without = game_catalog_entries(&data_with(ManifestSet::from_sources(&[])));
    assert!(without.iter().all(|entry| !entry.has_bundled_component));

    let with = game_catalog_entries(&data_with(ManifestSet::from_sources(&[("external.json", external.as_str())])));
    let hit = with.iter().find(|entry| entry.id == target).expect("the target game is listed");
    assert!(hit.has_bundled_component);
    assert_eq!(with.iter().filter(|e| e.has_bundled_component).count(), 1);
}

#[test]
fn settings_dto_carries_the_three_settings() {
    let dto = AppSettingsDto::from(AppSettings {
        version_check_enabled: false,
        log_retention_days: 7,
        playtime_checkpoint_sec: 45,
    });
    assert_eq!(dto, AppSettingsDto { version_check_enabled: false, log_retention_days: 7, playtime_checkpoint_sec: 45 });
}
