use orbis::capabilities::{capabilities, game_capabilities, ConfigCapability};
use orbis::catalog::{contains, find, game_catalog};
use orbis::model::GameId;

const CONTRACT_GAME_IDS: [&str; 5] = [
    "genshin-impact",
    "honkai-star-rail",
    "zenless-zone-zero",
    "wuthering-waves",
    "arknights-endfield",
];

#[test]
fn catalog_covers_exactly_the_contract_game_ids() {
    let catalog = game_catalog();
    let mut catalog_ids: Vec<&str> = catalog.iter().map(|e| e.id).collect();
    let mut expected: Vec<&str> = CONTRACT_GAME_IDS.to_vec();
    catalog_ids.sort_unstable();
    expected.sort_unstable();
    assert_eq!(catalog_ids, expected);
}

#[test]
fn ids_are_valid_slugs_and_unique() {
    let catalog = game_catalog();
    for entry in &catalog {
        assert!(GameId::new(entry.id).is_some(), "invalid slug {:?}", entry.id);
    }
    let mut ids: Vec<&str> = catalog.iter().map(|e| e.id).collect();
    let before = ids.len();
    ids.sort_unstable();
    ids.dedup();
    assert_eq!(ids.len(), before);
}

#[test]
fn every_entry_has_display_text_and_regions() {
    for entry in game_catalog() {
        assert!(!entry.name.trim().is_empty(), "{}", entry.id);
        assert!(!entry.en_name.trim().is_empty(), "{}", entry.id);
        assert!(!entry.publisher.trim().is_empty(), "{}", entry.id);
        assert!(!entry.regions.is_empty(), "{}", entry.id);
        let mut regions: Vec<&str> = entry.regions.iter().map(|r| r.slug()).collect();
        let before = regions.len();
        regions.sort_unstable();
        regions.dedup();
        assert_eq!(regions.len(), before, "{}", entry.id);
    }
}

#[test]
fn official_urls_are_absolute_https_or_absent() {
    for entry in game_catalog() {
        if let Some(url) = entry.official_url {
            assert!(url.starts_with("https://"), "{} {url:?}", entry.id);
        }
    }
}

#[test]
fn find_is_exhaustive_over_the_catalog() {
    for entry in game_catalog() {
        let found = find(entry.id).expect("catalog entries are found");
        assert_eq!(found.id, entry.id);
        assert!(contains(entry.id));
    }
    assert!(find("no-such-game").is_none());
    assert!(!contains("no-such-game"));
    assert!(!contains("Genshin-Impact"));
}

#[test]
fn catalog_size_matches_the_mvp_scope() {
    assert_eq!(game_catalog().len(), 5);
}

#[test]
fn the_table_covers_exactly_the_catalog() {
    let mut capability_ids: Vec<&str> = game_capabilities().iter().map(|c| c.game_id).collect();
    let mut catalog_ids: Vec<&str> = game_catalog().iter().map(|e| e.id).collect();
    capability_ids.sort_unstable();
    catalog_ids.sort_unstable();
    assert_eq!(capability_ids, catalog_ids);
}

#[test]
fn ids_are_unique() {
    let mut ids: Vec<&str> = game_capabilities().iter().map(|c| c.game_id).collect();
    let before = ids.len();
    ids.sort_unstable();
    ids.dedup();
    assert_eq!(ids.len(), before);
}

#[test]
fn only_one_game_declares_a_config_source_in_the_mvp() {
    let declared: Vec<&str> = game_capabilities()
        .iter()
        .filter(|c| c.config == ConfigCapability::Declared)
        .map(|c| c.game_id)
        .collect();
    assert_eq!(declared, vec!["wuthering-waves"]);
}

#[test]
fn not_applicable_and_not_declared_are_distinct() {
    assert_eq!(ConfigCapability::NotApplicable.unsupported_reason(), Some("not_applicable"));
    assert_eq!(ConfigCapability::ProviderNotDeclared.unsupported_reason(), Some("provider_not_declared"));
    assert_eq!(ConfigCapability::Declared.unsupported_reason(), None);
    assert!(ConfigCapability::Declared.has_config_source());
    assert!(!ConfigCapability::NotApplicable.has_config_source());
}

#[test]
fn lookup_is_exact_and_misses_stay_misses() {
    for entry in game_capabilities() {
        assert!(capabilities(entry.game_id).is_some());
    }
    assert!(capabilities("no-such-game").is_none());
    assert!(capabilities("Wuthering-Waves").is_none());
    assert_eq!(capabilities("genshin-impact").unwrap().config, ConfigCapability::NotApplicable);
}
