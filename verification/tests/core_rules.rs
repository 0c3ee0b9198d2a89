use std::cmp::Ordering;

use orbis::attention::{attention_reasons, needs_attention, AttentionInput, AttentionReason};
use orbis::compat::{query, CompatEntry, CompatRecord, CompatStatus, MatchKind};
use orbis::model::{primary_status_rank, GameId, GameRuntimeStatus, InvalidGameId, Region};
use orbis::tool::{is_valid_tool_id, RiskLevel, SourceKind, ToolPermission, ToolSource, ToolType};
use orbis::version::{compare, is_prefix_key, is_update_available, normalize, Version};

fn v(raw: &str) -> Option<Version> {
    normalize(raw)
}

// ── attention ──────────────────────────────────────────────────────────

#[test]
fn healthy_game_needs_no_attention() {
    let input = AttentionInput::new(
        GameRuntimeStatus::Installed,
        false,
        v("7.1"),
        vec![CompatStatus::Compatible],
    );
    assert!(!needs_attention(&input));
    assert!(attention_reasons(&input).is_empty());
}

#[test]
fn running_alone_is_not_an_attention_item() {
    let input = AttentionInput::new(GameRuntimeStatus::Running, false, v("4.5"), vec![]);
    assert!(!needs_attention(&input));
}

#[test]
fn tool_unknown_flags_attention_even_when_not_enabled() {
    let input = AttentionInput::new(
        GameRuntimeStatus::Installed,
        false,
        v("3.5.0.128940"),
        vec![CompatStatus::Unknown],
    );
    assert_eq!(attention_reasons(&input), vec![AttentionReason::ToolUnknown]);
}

#[test]
fn incompatible_tool_flags_tool_incompatible_not_unknown() {
    let input = AttentionInput::new(
        GameRuntimeStatus::Installed,
        false,
        v("1.0"),
        vec![CompatStatus::Incompatible],
    );
    assert_eq!(attention_reasons(&input), vec![AttentionReason::ToolIncompatible]);
}

#[test]
fn deprecated_is_also_a_hard_block() {
    let input = AttentionInput::new(
        GameRuntimeStatus::Installed,
        false,
        v("1.0"),
        vec![CompatStatus::Deprecated],
    );
    assert_eq!(attention_reasons(&input), vec![AttentionReason::ToolIncompatible]);
}

#[test]
fn version_unknown_is_independent_from_update() {
    let input = AttentionInput::new(GameRuntimeStatus::Installed, false, None, vec![]);
    assert_eq!(attention_reasons(&input), vec![AttentionReason::VersionUnknown]);
}

#[test]
fn reasons_accumulate_and_dedupe() {
    let input = AttentionInput::new(
        GameRuntimeStatus::Broken,
        true,
        None,
        vec![CompatStatus::Unknown, CompatStatus::Unknown, CompatStatus::Incompatible],
    );
    let reasons = attention_reasons(&input);
    assert_eq!(reasons.len(), 5);
    assert_eq!(reasons.iter().filter(|r| **r == AttentionReason::ToolUnknown).count(), 1);
    assert!(reasons.contains(&AttentionReason::Broken));
    assert!(reasons.contains(&AttentionReason::VersionUnknown));
    assert!(reasons.contains(&AttentionReason::UpdateAvailable));
    assert!(reasons.contains(&AttentionReason::ToolIncompatible));
}

#[test]
fn multiple_healthy_tools_do_not_flag() {
    let input = AttentionInput::new(
        GameRuntimeStatus::Installed,
        false,
        v("7.1"),
        vec![CompatStatus::Verified, CompatStatus::Compatible, CompatStatus::Verified],
    );
    assert!(!needs_attention(&input));
}

#[test]
fn all_reason_slugs_match_contract() {
    for (reason, slug) in [
        (AttentionReason::UpdateAvailable, "update_available"),
        (AttentionReason::Broken, "broken"),
        (AttentionReason::VersionUnknown, "version_unknown"),
        (AttentionReason::ToolUnknown, "tool_unknown"),
        (AttentionReason::ToolIncompatible, "tool_incompatible"),
    ] {
        assert_eq!(reason.slug(), slug);
    }
}

// ── compat ─────────────────────────────────────────────────────────────

fn entry_exact_then_prefix_unknown() -> CompatEntry {
    CompatEntry::new(
        "sample-game",
        "sample-ns/sample-tool",
        vec![
            CompatRecord::exact("2.7", CompatStatus::Verified),
            CompatRecord::prefix("3.x", CompatStatus::Unknown).with_notes("3.x 未实测；待首测后升级"),
        ],
    )
}

fn entry_prefix_backstop() -> CompatEntry {
    CompatEntry::new(
        "other-game",
        "sample-ns/other-tool",
        vec![
            CompatRecord::exact("7.0", CompatStatus::Compatible),
            CompatRecord::prefix("7.x", CompatStatus::Compatible),
        ],
    )
}

#[test]
fn exact_hit_wins_over_prefix() {
    let e = entry_exact_then_prefix_unknown();
    let r = query(Some(&e), normalize("2.7.1.9"));
    assert_eq!(r.status, CompatStatus::Verified);
    assert_eq!(r.match_kind, MatchKind::Exact);
    assert_eq!(r.matched_version_key.as_deref(), Some("2.7"));
}

#[test]
fn prefix_fallback_covers_whole_minor_range() {
    let e = entry_exact_then_prefix_unknown();
    for raw in ["3.0", "3.5.0.128940", "3.9"] {
        let r = query(Some(&e), normalize(raw));
        assert_eq!(r.status, CompatStatus::Unknown, "raw={raw}");
        assert_eq!(r.match_kind, MatchKind::Prefix, "raw={raw}");
        assert_eq!(r.matched_version_key.as_deref(), Some("3.x"), "raw={raw}");
    }
}

#[test]
fn outside_all_records_falls_to_unknown() {
    let e = entry_exact_then_prefix_unknown();
    let r = query(Some(&e), normalize("4.0"));
    assert_eq!(r.status, CompatStatus::Unknown);
    assert_eq!(r.match_kind, MatchKind::Unmatched);
    assert!(r.matched_version_key.is_none());
}

#[test]
fn unknown_if_local_version_unknown() {
    let e = entry_prefix_backstop();
    let r = query(Some(&e), None);
    assert_eq!(r.status, CompatStatus::Unknown);
    assert_eq!(r.match_kind, MatchKind::Unmatched);
}

#[test]
fn missing_entry_never_panics() {
    let r = query(None, normalize("1.0"));
    assert_eq!(r.status, CompatStatus::Unknown);
    assert_eq!(r.match_kind, MatchKind::Unmatched);
}

#[test]
fn prefix_backstop_keeps_live_versions_usable() {
    let e = entry_prefix_backstop();
    for raw in ["7.0", "7.1", "7.9.3"] {
        let r = query(Some(&e), normalize(raw));
        assert_eq!(r.status, CompatStatus::Compatible, "raw={raw}");
    }
    assert_eq!(query(Some(&e), normalize("8.0")).status, CompatStatus::Unknown);
}

#[test]
fn exact_record_does_not_leak_into_neighbouring_minor() {
    let e = entry_exact_then_prefix_unknown();
    let r = query(Some(&e), normalize("2.8"));
    assert_eq!(r.status, CompatStatus::Unknown);
    assert_eq!(r.match_kind, MatchKind::Unmatched);
}

#[test]
fn status_gating_semantics() {
    assert!(CompatStatus::Verified.is_usable());
    assert!(CompatStatus::Compatible.is_usable());
    assert!(!CompatStatus::Unknown.is_usable());
    assert!(CompatStatus::Incompatible.is_hard_blocked());
    assert!(CompatStatus::Deprecated.is_hard_blocked());
}

#[test]
fn seed_literal_parsing_is_exact() {
    assert_eq!(CompatStatus::from_seed_literal("Verified"), Some(CompatStatus::Verified));
    assert_eq!(CompatStatus::from_seed_literal("verified"), None);
    assert_eq!(CompatStatus::from_seed_literal("Compatible "), None);
    assert_eq!(CompatStatus::from_seed_literal(""), None);
}

#[test]
fn slugs_match_contract_literals() {
    assert_eq!(CompatStatus::Verified.slug(), "verified");
    assert_eq!(CompatStatus::Compatible.slug(), "compatible");
    assert_eq!(CompatStatus::Unknown.slug(), "unknown");
    assert_eq!(CompatStatus::Incompatible.slug(), "incompatible");
    assert_eq!(CompatStatus::Deprecated.slug(), "deprecated");
}

#[test]
fn prefix_record_carries_its_notes_into_the_result() {
    let e = entry_exact_then_prefix_unknown();
    let r = query(Some(&e), normalize("3.2"));
    assert_eq!(r.notes.as_deref(), Some("3.x 未实测；待首测后升级"));
    assert_eq!(query(Some(&e), normalize("2.7")).notes, None);
}

// ── model ──────────────────────────────────────────────────────────────

const SAMPLE: &str = "sample-game";

#[test]
fn accepts_well_formed_slugs() {
    assert_eq!(GameId::new(SAMPLE).unwrap().as_str(), SAMPLE);
    assert_eq!(GameId::new("a").unwrap().as_str(), "a");
    assert_eq!(GameId::new("game-2-x").unwrap().as_str(), "game-2-x");
}

#[test]
fn rejects_malformed_slugs() {
    for bad in ["", "-lead", "trail-", "Upper", "with space", "with/slash", "中文", "a_b"] {
        assert!(GameId::new(bad).is_none(), "should reject: {bad:?}");
    }
    assert!(GameId::new(&"x".repeat(65)).is_none());
    assert!(GameId::new(&"x".repeat(64)).is_some());
}

#[test]
fn from_str_reports_typed_error() {
    assert!(SAMPLE.parse::<GameId>().is_ok());
    assert_eq!("Bad".parse::<GameId>(), Err(InvalidGameId));
}

#[test]
fn display_roundtrips_through_parse() {
    let id = GameId::new(SAMPLE).unwrap();
    assert_eq!(id.to_string().parse::<GameId>().unwrap(), id);
}

#[test]
fn region_literals_are_lowercase_and_display_text_is_rejected() {
    assert_eq!(Region::Cn.slug(), "cn");
    assert_eq!(Region::from_slug("global"), Some(Region::Global));
    assert_eq!(Region::from_slug("bili"), Some(Region::Bili));
    assert_eq!(Region::from_slug("国服"), None);
    assert_eq!(Region::from_slug("CN"), None);
    assert_eq!(Region::ALL.len(), 3);
}

#[test]
fn runtime_status_slug_roundtrip() {
    for s in [
        GameRuntimeStatus::Installed,
        GameRuntimeStatus::Running,
        GameRuntimeStatus::Updating,
        GameRuntimeStatus::Repairing,
        GameRuntimeStatus::Broken,
    ] {
        assert_eq!(GameRuntimeStatus::from_slug(s.slug()), Some(s));
    }
    assert_eq!(GameRuntimeStatus::from_slug("ready"), None);
}

#[test]
fn running_outranks_update_available() {
    assert!(
        primary_status_rank(GameRuntimeStatus::Running, true)
            < primary_status_rank(GameRuntimeStatus::Installed, true)
    );
}

#[test]
fn broken_outranks_installed() {
    assert!(
        primary_status_rank(GameRuntimeStatus::Broken, false)
            < primary_status_rank(GameRuntimeStatus::Installed, false)
    );
}

#[test]
fn update_available_ranks_below_running_and_broken() {
    let upd = primary_status_rank(GameRuntimeStatus::Installed, true);
    assert!(upd > primary_status_rank(GameRuntimeStatus::Broken, false));
    assert!(upd > primary_status_rank(GameRuntimeStatus::Running, false));
    assert!(upd < primary_status_rank(GameRuntimeStatus::Installed, false));
}

// ── tool vocabulary ────────────────────────────────────────────────────

#[test]
fn risk_level_literals_roundtrip_and_are_strict() {
    for level in [RiskLevel::L0, RiskLevel::L1, RiskLevel::L2, RiskLevel::L3] {
        assert_eq!(RiskLevel::from_literal(level.literal()), Some(level));
    }
    assert_eq!(RiskLevel::from_literal("l1"), None);
    assert_eq!(RiskLevel::from_literal("L1 "), None);
    assert_eq!(RiskLevel::from_literal("L4"), None);
}

#[test]
fn only_l3_requires_explicit_consent() {
    assert!(RiskLevel::L3.requires_explicit_consent());
    assert!(!RiskLevel::L2.requires_explicit_consent());
    assert!(!RiskLevel::L1.requires_explicit_consent());
    assert!(!RiskLevel::L0.requires_explicit_consent());
}

#[test]
fn tool_type_slugs_match_contract_literals() {
    assert_eq!(ToolType::ConfigModify.slug(), "config_modify");
    assert_eq!(ToolType::ExternalProcess.slug(), "external_process");
    assert_eq!(ToolType::from_slug("external_process"), Some(ToolType::ExternalProcess));
    assert_eq!(ToolType::from_slug("mod"), None);
}

#[test]
fn only_config_modify_writes_game_files() {
    assert!(ToolType::ConfigModify.writes_game_files());
    assert!(!ToolType::ExternalProcess.writes_game_files());
}

#[test]
fn tool_permission_slugs_match_contract_literals() {
    for p in [
        ToolPermission::ReadConfig,
        ToolPermission::WriteConfig,
        ToolPermission::LaunchExternal,
        ToolPermission::ProcessAttach,
    ] {
        assert_eq!(ToolPermission::from_slug(p.slug()), Some(p));
    }
    assert_eq!(ToolPermission::from_slug("attach"), None);
}

#[test]
fn source_kind_slugs_match_contract_literals() {
    for k in [SourceKind::Builtin, SourceKind::Bundled, SourceKind::Upstream] {
        assert_eq!(SourceKind::from_slug(k.slug()), Some(k));
    }
    assert_eq!(SourceKind::from_slug("community"), None);
}

#[test]
fn upstream_source_requires_attribution() {
    let mut s = ToolSource::new(SourceKind::Upstream);
    assert!(!s.is_attribution_complete());
    s.repo = Some("34736384/genshin-fps-unlock".into());
    s.license = Some("MIT".into());
    assert!(s.is_attribution_complete());
    s.license = Some("   ".into());
    assert!(!s.is_attribution_complete());
    assert!(ToolSource::new(SourceKind::Builtin).is_attribution_complete());
}

#[test]
fn tool_id_requires_exactly_one_slash_and_valid_slugs() {
    assert!(is_valid_tool_id("orbis-builtin/wuwa-fps-120"));
    assert!(is_valid_tool_id("orbis-bundled/genshin-fps-unlock"));
    assert!(!is_valid_tool_id("no-namespace"));
    assert!(!is_valid_tool_id("a/b/c"));
    assert!(!is_valid_tool_id("/name"));
    assert!(!is_valid_tool_id("ns/"));
    assert!(!is_valid_tool_id("Ns/name"));
    assert!(!is_valid_tool_id("ns/Na me"));
    assert!(!is_valid_tool_id("ns/-lead"));
    assert!(!is_valid_tool_id("tool/名"));
}

#[test]
fn risk_level_display_is_its_literal() {
    assert_eq!(RiskLevel::L2.to_string(), "L2");
}

// ── version ────────────────────────────────────────────────────────────

#[test]
fn normalize_takes_first_two_segments() {
    assert_eq!(normalize("3.5.0.128940"), Some(Version { major: 3, minor: 5 }));
    assert_eq!(normalize("7.0.10.4821"), Some(Version { major: 7, minor: 0 }));
    assert_eq!(normalize("7.1"), Some(Version { major: 7, minor: 1 }));
    assert_eq!(normalize(" 2.7 "), Some(Version { major: 2, minor: 7 }));
}

#[test]
fn normalize_refuses_to_guess() {
    assert_eq!(normalize("7"), None);
    assert_eq!(normalize("v7.1"), None);
    assert_eq!(normalize("7.x"), None);
    assert_eq!(normalize("7.1-beta"), None);
    assert_eq!(normalize(""), None);
    assert_eq!(normalize("Patch 2.6"), None);
    assert_eq!(normalize("+7.1"), None);
}

#[test]
fn parse_is_stricter_than_normalize() {
    assert_eq!(Version::parse("7.1"), Some(Version { major: 7, minor: 1 }));
    assert_eq!(Version::parse("7.1.0.1"), None);
    assert_eq!(Version::parse("7"), None);
}

#[test]
fn compares_numerically_not_lexically() {
    let v10 = normalize("10.0").unwrap();
    let v9 = normalize("9.0").unwrap();
    assert_eq!(compare(v10, v9), Ordering::Greater);
    assert_eq!(compare(v9, v10), Ordering::Less);
    assert_eq!(compare(v9, normalize("9.0").unwrap()), Ordering::Equal);
}

#[test]
fn minor_is_compared_within_same_major() {
    assert!(normalize("3.10").unwrap() > normalize("3.9").unwrap());
    assert!(normalize("3.5").unwrap() < normalize("4.0").unwrap());
}

#[test]
fn display_roundtrips() {
    assert_eq!(normalize("3.5.0.1").unwrap().to_string(), "3.5");
}

#[test]
fn prefix_matching_covers_whole_minor_range() {
    let prefix = "3.x";
    assert!(normalize("3.0").unwrap().matches_prefix(prefix));
    assert!(normalize("3.5.0.1").unwrap().matches_prefix(prefix));
    assert!(normalize("3.9").unwrap().matches_prefix(prefix));
    assert!(!normalize("4.0").unwrap().matches_prefix(prefix));
    assert!(!normalize("2.7").unwrap().matches_prefix(prefix));
    assert!(!normalize("3.5").unwrap().matches_prefix("3.y"));
}

#[test]
fn prefix_key_validation_agrees_with_matching() {
    for key in ["3.x", "10.x"] {
        assert!(is_prefix_key(key), "{key} should be a prefix key");
    }
    for key in ["3.5", "3.X", "x.x", ".x", "3.x.1", "", "3"] {
        assert!(!is_prefix_key(key), "{key} should not be a prefix key");
        assert!(!normalize("3.5").unwrap().matches_prefix(key));
    }
}

#[test]
fn update_detection_never_over_reports() {
    let local = normalize("4.4.0.3105");
    let remote = normalize("4.5");
    assert!(is_update_available(local, remote));
    assert!(!is_update_available(normalize("4.5"), normalize("4.5")));
    assert!(!is_update_available(normalize("4.6"), normalize("4.5")));
    assert!(!is_update_available(local, None));
    assert!(!is_update_available(None, remote));
    assert!(!is_update_available(None, None));
}

#[test]
fn regression_raw_build_number_must_not_hide_updates() {
    let local = normalize("7.0.10.4821").unwrap();
    assert_eq!(local, normalize("7.0").unwrap());
    assert!(!is_update_available(Some(local), normalize("7.0")));
    assert!(is_update_available(Some(local), normalize("7.1")));
}

#[test]
fn version_text_reads_back_as_the_same_version() {
    for raw in ["0.0", "3.5", "10.12", "4294967295.7"] {
        let v = Version::parse(raw).unwrap();
        assert_eq!(Version::parse(&v.to_string()), Some(v));
        assert_eq!(normalize(&v.to_string()), Some(v));
    }
}
