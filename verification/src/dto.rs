//! Projections that need both the game catalog and the tool data: the
//! catalog entries the interface lists, and the settings record.
//!
//! These place facts in the shape of the interface; they decide nothing.

use vstd::prelude::*;

use crate::catalog::{catalog_entry_is, game_catalog, opt_url, GameEntry};
use crate::db::AppSettings;
use crate::json::opt_text_view;
use crate::manifest::{of_game, ToolManifest};
use crate::model::Region;
use crate::text::owned;
use crate::tools::BuiltinData;

verus! {

/// One entry of the game list.
#[derive(Debug, Clone, PartialEq, Eq)]
pub struct GameCatalogEntryDto {
    pub id: String,
    /// Chinese name.
    pub name: String,
    pub en_name: String,
    pub publisher: String,
    /// Lower-case region slugs; display text belongs to the interface.
    pub regions: Vec<&'static str>,
    /// The official entry point; `None` hides it.
    pub official_url: Option<String>,
    /// Whether some tool of the game needs a separately downloaded asset.
    pub has_bundled_component: bool,
}

/// Some manifest of the list needs an asset.
pub open spec fn any_requires_asset(ms: Seq<ToolManifest>) -> bool {
    exists|i: int| 0 <= i < ms.len() && (#[trigger] ms[i]).entry.asset is Some
}

pub open spec fn region_slugs(rs: Seq<Region>) -> Seq<Seq<char>> {
    rs.map_values(|r: Region| r.slug_text())
}

pub open spec fn str_views(v: Seq<&'static str>) -> Seq<Seq<char>> {
    v.map_values(|s: &'static str| s@)
}

/// `d` projects the catalog entry `e`, with the bundled-component flag
/// derived from the manifests `ms`.
pub open spec fn entry_projected(e: GameEntry, ms: Seq<ToolManifest>, d: GameCatalogEntryDto) -> bool {
    &&& d.id@ == e.id@
    &&& d.name@ == e.name@
    &&& d.en_name@ == e.en_name@
    &&& d.publisher@ == e.publisher@
    &&& str_views(d.regions@) == region_slugs(e.regions@)
    &&& opt_text_view(d.official_url) == opt_url(e.official_url)
    &&& d.has_bundled_component == any_requires_asset(of_game(ms, e.id@))
}

/// `d` projects the `i`-th catalog entry.
pub open spec fn catalog_dto_at(i: int, ms: Seq<ToolManifest>, d: GameCatalogEntryDto) -> bool {
    exists|e: GameEntry| catalog_entry_is(e, i) && entry_projected(e, ms, d)
}

fn any_asset(ms: &Vec<&ToolManifest>) -> (r: bool)
    ensures
        r == any_requires_asset(ms@.map_values(|m: &ToolManifest| *m)),
{
    let ghost all = ms@.map_values(|m: &ToolManifest| *m);
    let mut i: usize = 0;
    while i < ms.len()
        invariant
            i <= ms@.len(),
            all == ms@.map_values(|m: &ToolManifest| *m),
            forall|k: int| 0 <= k < i ==> (#[trigger] all[k]).entry.asset is None,
        decreases ms@.len() - i,
    {
        if ms[i].requires_asset() {
            assert(all[i as int].entry.asset is Some);
            return true;
        }
        i = i + 1;
    }
    false
}

fn slugs_of(regions: &[Region]) -> (r: Vec<&'static str>)
    ensures
        str_views(r@) == region_slugs(regions@),
{
    let mut out: Vec<&'static str> = Vec::new();
    let mut i: usize = 0;
    while i < regions.len()
        invariant
            i <= regions@.len(),
            out@.len() == i,
            forall|k: int| 0 <= k < i ==> (#[trigger] out@[k])@ == regions@[k].slug_text(),
        decreases regions@.len() - i,
    {
        out.push(regions[i].slug());
        i = i + 1;
    }
    assert(str_views(out@) =~= region_slugs(regions@));
    out
}

fn entry_dto(e: &GameEntry, data: &BuiltinData) -> (r: GameCatalogEntryDto)
    ensures
        entry_projected(*e, data.manifests@.manifests, r),
{
    let tools = data.manifests.for_game(e.id);
    let official_url = match e.official_url {
        Some(u) => Some(owned(u)),
        None => None,
    };
    GameCatalogEntryDto {
        id: owned(e.id),
        name: owned(e.name),
        en_name: owned(e.en_name),
        publisher: owned(e.publisher),
        regions: slugs_of(e.regions),
        official_url,
        has_bundled_component: any_asset(&tools),
    }
}

/// The game list: every catalog entry in catalog order.  Whether a game has
/// a bundled component is derived from the manifests, not written down.
pub fn game_catalog_entries(data: &BuiltinData) -> (r: Vec<GameCatalogEntryDto>)
    ensures
        r@.len() == 5,
        forall|i: int| 0 <= i < 5 ==> catalog_dto_at(i, data.manifests@.manifests, #[trigger] r@[i]),
{
    let catalog = game_catalog();
    let mut out: Vec<GameCatalogEntryDto> = Vec::new();
    let mut i: usize = 0;
    while i < catalog.len()
        invariant
            i <= catalog@.len(),
            catalog@.len() == 5,
            forall|k: int| 0 <= k < 5 ==> catalog_entry_is(#[trigger] catalog@[k], k),
            out@.len() == i,
            forall|k: int|
                0 <= k < i ==> entry_projected(catalog@[k], data.manifests@.manifests, #[trigger] out@[k]),
        decreases catalog@.len() - i,
    {
        out.push(entry_dto(&catalog[i], data));
        i = i + 1;
    }
    assert forall|k: int| 0 <= k < 5 implies catalog_dto_at(k, data.manifests@.manifests, #[trigger] out@[k]) by {
        assert(catalog_entry_is(catalog@[k], k));
        assert(entry_projected(catalog@[k], data.manifests@.manifests, out@[k]));
    }
    out
}

/// The settings record of the interface.
#[derive(Debug, Clone, Copy, PartialEq, Eq, Structural)]
pub struct AppSettingsDto {
    pub version_check_enabled: bool,
    pub log_retention_days: u32,
    pub playtime_checkpoint_sec: u32,
}

impl From<AppSettings> for AppSettingsDto {
    fn from(settings: AppSettings) -> (r: Self) {
        AppSettingsDto {
            version_check_enabled: settings.version_check_enabled,
            log_retention_days: settings.log_retention_days,
            playtime_checkpoint_sec: settings.playtime_checkpoint_sec,
        }
    }
}

impl vstd::std_specs::convert::FromSpecImpl<AppSettings> for AppSettingsDto {
    open spec fn obeys_from_spec() -> bool {
        true
    }

    open spec fn from_spec(settings: AppSettings) -> AppSettingsDto {
        AppSettingsDto {
            version_check_enabled: settings.version_check_enabled,
            log_retention_days: settings.log_retention_days,
            playtime_checkpoint_sec: settings.playtime_checkpoint_sec,
        }
    }
}

} // verus!
