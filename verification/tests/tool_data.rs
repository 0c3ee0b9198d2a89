use orbis::assets::{AssetCatalog, AssetError, Packaging, SUPPORTED_SCHEMA_VERSION};
use orbis::manifest::ManifestSet;
use orbis::seed::SeedTable;
use orbis::tool::is_valid_tool_id;
use orbis::tools::{cross_check, BuiltinData, DataIssue, Severity};

const EMPTY_ARTIFACTS: &str = r#"{
  "schema_version": "0.1.0",
  "updated_at": "2026-09-18",
  "note": "artifacts 为空 = 构建管道未定稿",
  "assets": [
    {
      "asset_key": "sample-asset",
      "tool_id": "sample-ns/sample-unlocker",
      "channel": "releases",
      "upstream": { "repo": "owner/repo", "license": "MIT", "version": "v1.0.0" },
      "artifacts": []
    }
  ]
}"#;

fn with_one_artifact() -> String {
    let sha = "a".repeat(64);
    EMPTY_ARTIFACTS.replace(
        "\"artifacts\": []",
        &format!(
            r#""artifacts": [
              {{
                "platform": "windows-x64",
                "version": "v1.0.0",
                "url": "https://example.invalid/asset.zip",
                "sha256": "{sha}",
                "size": 73400320,
                "packaging": "self-contained"
              }}
            ]"#
        ),
    )
}

#[test]
fn empty_artifacts_is_a_legal_state_not_an_error() {
    let catalog = AssetCatalog::parse(EMPTY_ARTIFACTS).expect("empty artifacts parse");
    assert_eq!(catalog.schema_version(), Some("0.1.0"));
    assert!(!catalog.is_degraded());
    assert_eq!(catalog.entries().len(), 1);

    let entry = catalog.get("sample-asset").expect("the entry exists");
    assert!(!entry.has_downloadable_artifact());
    assert!(entry.artifacts.is_empty());
    assert!(!catalog.download_url_configured("sample-asset"));
    assert!(!catalog.download_url_configured("no-such-asset"));
}

#[test]
fn configured_artifact_reports_download_available() {
    let catalog = AssetCatalog::parse(&with_one_artifact()).expect("one artifact parses");
    let entry = catalog.get("sample-asset").unwrap();
    assert!(entry.has_downloadable_artifact());
    assert!(catalog.download_url_configured("sample-asset"));

    let artifact = &entry.artifacts[0];
    assert_eq!(artifact.platform, "windows-x64");
    assert_eq!(artifact.size, 73_400_320);
    assert_eq!(artifact.packaging, Some(Packaging::SelfContained));
}

#[test]
fn degraded_catalog_still_yields_visible_tools() {
    let (catalog, err) = AssetCatalog::parse_or_degraded("{ broken");
    assert!(err.is_some());
    assert!(catalog.is_degraded());
    assert_eq!(catalog.schema_version(), None);
    assert!(!catalog.download_url_configured("sample-asset"));

    let (builtin, builtin_err) = AssetCatalog::builtin_or_degraded();
    assert!(builtin_err.is_none(), "built-in data must not degrade: {builtin_err:?}");
    assert!(!builtin.is_degraded());
}

#[test]
fn rejects_schema_mismatch_and_malformed_json() {
    let mismatched = EMPTY_ARTIFACTS.replace("\"0.1.0\"", "\"9.9.9\"");
    assert!(matches!(AssetCatalog::parse(&mismatched), Err(AssetError::UnsupportedSchema { .. })));
    assert!(matches!(AssetCatalog::parse("{ nope"), Err(AssetError::Malformed { .. })));
    let extra = EMPTY_ARTIFACTS.replace("\"channel\"", "\"unexpected\": 1, \"channel\"");
    assert!(matches!(AssetCatalog::parse(&extra), Err(AssetError::Malformed { .. })));
}

#[test]
fn rejects_invalid_artifact_fields() {
    let bad_sha = with_one_artifact().replace(&"a".repeat(64), &"Z".repeat(64));
    assert!(matches!(AssetCatalog::parse(&bad_sha), Err(AssetError::InvalidEntry { .. })));

    let bad_platform = with_one_artifact().replace("windows-x64", "linux-x64");
    assert!(matches!(AssetCatalog::parse(&bad_platform), Err(AssetError::InvalidEntry { .. })));

    let zero_size = with_one_artifact().replace("\"size\": 73400320", "\"size\": 0");
    assert!(matches!(AssetCatalog::parse(&zero_size), Err(AssetError::InvalidEntry { .. })));

    let bad_packaging = with_one_artifact().replace("\"self-contained\"", "\"portable\"");
    assert!(matches!(AssetCatalog::parse(&bad_packaging), Err(AssetError::InvalidEntry { .. })));

    let no_license = EMPTY_ARTIFACTS.replace("\"license\": \"MIT\"", "\"license\": \"\"");
    assert!(matches!(AssetCatalog::parse(&no_license), Err(AssetError::InvalidEntry { .. })));
}

#[test]
fn builtin_asset_index_is_loadable() {
    let catalog = AssetCatalog::builtin().expect("the built-in index loads");
    assert_eq!(catalog.schema_version(), Some(SUPPORTED_SCHEMA_VERSION));
    assert!(!catalog.is_degraded());
    assert!(!catalog.is_empty());
    for entry in catalog.entries() {
        assert!(is_valid_tool_id(&entry.tool_id), "bad tool_id {}", entry.tool_id);
    }
}

#[test]
fn the_packaging_literals_are_strict() {
    assert_eq!(Packaging::from_slug("self-contained"), Some(Packaging::SelfContained));
    assert_eq!(Packaging::from_slug(Packaging::SelfContained.slug()), Some(Packaging::SelfContained));
    assert_eq!(Packaging::from_slug("portable"), None);
}

// ── cross-checks ───────────────────────────────────────────────────────

const SAMPLE_MANIFEST: &str = r#"{
  "id": "sample-ns/sample-tool",
  "game": "sample-game",
  "name": "示例",
  "description": "示例说明。",
  "version": "0.1.0",
  "type": "config_modify",
  "risk_level": "L1",
  "permissions": ["write_config"],
  "requires_admin": false,
  "backup_required": true,
  "entry": { "executor": "sample_executor" },
  "source": { "kind": "builtin" },
  "pending_verifications": []
}"#;

const NO_ASSETS: &str = r#"{ "schema_version": "0.1.0", "updated_at": "2026-09-18", "assets": [] }"#;

fn coherent_data() -> (SeedTable, ManifestSet, AssetCatalog) {
    let seed = SeedTable::parse(
        r#"{
          "schema_version": "0.1.0",
          "updated_at": "2026-09-18",
          "entries": [
            {
              "game_id": "sample-game",
              "tool_id": "sample-ns/sample-tool",
              "risk_level": "L1",
              "compatibility": [
                { "game_version": "1.0", "status": "Verified" }
              ]
            }
          ]
        }"#,
    )
    .expect("the sample table parses");
    let manifests = ManifestSet::from_sources(&[("sample.json", SAMPLE_MANIFEST)]);
    let assets = AssetCatalog::parse(NO_ASSETS).expect("the sample index parses");
    (seed, manifests, assets)
}

#[test]
fn coherent_data_reports_no_problems() {
    let (seed, manifests, assets) = coherent_data();
    let issues = cross_check(&seed, &manifests, &assets);
    assert!(issues.is_empty(), "{issues:?}");
}

#[test]
fn manifest_without_seed_entry_is_a_problem() {
    let (seed, _, assets) = coherent_data();
    let orphan = SAMPLE_MANIFEST.replace("sample-ns/sample-tool", "sample-ns/orphan-tool");
    let manifests = ManifestSet::from_sources(&[("orphan.json", orphan.as_str())]);
    let issues = cross_check(&seed, &manifests, &assets);
    let hit = issues
        .iter()
        .find(|i| matches!(i, DataIssue::ManifestWithoutSeedEntry { .. }))
        .expect("a missing seed entry is reported");
    assert_eq!(hit.severity(), Severity::Problem);
    assert_eq!(
        hit.to_string(),
        "工具 sample-ns/orphan-tool 有 Manifest 但种子表无条目 —— 兼容状态会恒为 Unknown"
    );
}

#[test]
fn game_mismatch_between_the_two_sources_is_detected() {
    let (_, manifests, assets) = coherent_data();
    let seed = SeedTable::parse(
        r#"{
          "schema_version": "0.1.0",
          "updated_at": "2026-09-18",
          "entries": [
            {
              "game_id": "other-game",
              "tool_id": "sample-ns/sample-tool",
              "risk_level": "L1",
              "compatibility": [{ "game_version": "1.0", "status": "Verified" }]
            }
          ]
        }"#,
    )
    .expect("the table parses");
    let issues = cross_check(&seed, &manifests, &assets);
    assert!(issues.iter().any(|i| matches!(i, DataIssue::GameMismatch { .. })), "{issues:?}");
}

#[test]
fn seed_entry_without_manifest_is_detected() {
    let (seed, _, assets) = coherent_data();
    let empty = ManifestSet::from_sources(&[]);
    let issues = cross_check(&seed, &empty, &assets);
    assert!(issues.iter().any(|i| matches!(i, DataIssue::SeedEntryWithoutManifest { .. })), "{issues:?}");
}

const UNLOCKER: &str = r#"{
  "id": "sample-ns/sample-tool",
  "game": "sample-game",
  "name": "示例解锁",
  "description": "运行时工具。",
  "version": "0.1.0",
  "type": "external_process",
  "risk_level": "L3",
  "permissions": ["launch_external"],
  "requires_admin": false,
  "backup_required": false,
  "entry": { "executor": "unlocker", "asset": "sample-asset", "channel": "releases" },
  "source": { "kind": "upstream", "repo": "owner/repo", "license": "MIT" },
  "pending_verifications": []
}"#;

#[test]
fn asset_paths_are_checked_and_notice_is_not_a_problem() {
    let (seed, _, _) = coherent_data();
    let manifests = ManifestSet::from_sources(&[("unlocker.json", UNLOCKER)]);

    let empty_assets = AssetCatalog::parse(NO_ASSETS).unwrap();
    let issues = cross_check(&seed, &manifests, &empty_assets);
    let missing = issues
        .iter()
        .find(|i| matches!(i, DataIssue::MissingAsset { .. }))
        .expect("a missing asset is reported");
    assert_eq!(missing.severity(), Severity::Problem);

    let unconfigured = AssetCatalog::parse(
        r#"{
          "schema_version": "0.1.0",
          "updated_at": "2026-09-18",
          "assets": [
            {
              "asset_key": "sample-asset",
              "tool_id": "sample-ns/sample-tool",
              "channel": "releases",
              "upstream": { "repo": "owner/repo", "license": "MIT", "version": "v1.0.0" },
              "artifacts": []
            }
          ]
        }"#,
    )
    .unwrap();
    let issues = cross_check(&seed, &manifests, &unconfigured);
    assert!(issues.iter().any(|i| matches!(i, DataIssue::AssetNotConfigured { .. })), "{issues:?}");
    assert!(!issues.iter().any(|i| matches!(i, DataIssue::MissingAsset { .. })));
    assert!(issues.iter().all(|i| i.severity() == Severity::Notice), "{issues:?}");
}

#[test]
fn builtin_data_loads_coherently() {
    let data = BuiltinData::load();
    assert!(data.degradations.is_empty(), "{:?}", data.degradations);
    assert!(!data.has_problems(), "{:?}", data.issues);
    assert!(!data.is_degraded());
    assert!(!data.manifests.is_empty());
    assert!(data.notices().iter().any(|i| matches!(i, DataIssue::AssetNotConfigured { .. })), "{:?}", data.issues);
}

#[test]
fn a_degraded_catalog_is_the_empty_catalog() {
    let (catalog, err) = AssetCatalog::parse_or_degraded("{ broken");
    assert!(err.is_some());
    assert_eq!(catalog.schema_version(), None);
    assert_eq!(catalog.updated_at(), None);
    assert_eq!(catalog.note(), None);
    assert!(catalog.is_empty());
}
