//! The game catalog: the five games the hub knows, fixed at build time.
//!
//! Games are not stored: they do not change with what a scan finds.  The
//! interface reads display names and official entry points from here and
//! keeps no catalog of its own.

use vstd::prelude::*;

use crate::model::Region;
use crate::text::str_eq;

verus! {

/// One catalog entry (the static part of a catalog record).
#[derive(Debug, Clone, Copy, PartialEq, Eq)]
pub struct GameEntry {
    /// The game's slug.
    pub id: &'static str,
    /// Chinese name (the main title).
    pub name: &'static str,
    /// English name.
    pub en_name: &'static str,
    /// Publisher, for display only.
    pub publisher: &'static str,
    /// The known regions; one installation per region.
    pub regions: &'static [Region],
    /// Official entry point; `None` when there is none.
    pub official_url: Option<&'static str>,
}

/// The slugs of the catalog, in display order.
pub open spec fn catalog_ids() -> Seq<Seq<char>> {
    seq![
        "wuthering-waves"@,
        "genshin-impact"@,
        "honkai-star-rail"@,
        "zenless-zone-zero"@,
        "arknights-endfield"@,
    ]
}

pub open spec fn opt_url(o: Option<&str>) -> Option<Seq<char>> {
    match o {
        Some(s) => Some(s@),
        None => None,
    }
}

/// `e` is the `i`-th catalog entry.
pub open spec fn catalog_entry_is(e: GameEntry, i: int) -> bool {
    &&& 0 <= i < 5
    &&& e.id@ == catalog_ids()[i]
    &&& if i == 0 {
        &&& e.name@ == "鸣潮"@
        &&& e.en_name@ == "Wuthering Waves"@
        &&& e.publisher@ == "库洛游戏"@
        &&& e.regions@ == seq![Region::Cn, Region::Global]
        &&& opt_url(e.official_url) == Some("https://mc.kurogames.com/"@)
    } else if i == 1 {
        &&& e.name@ == "原神"@
        &&& e.en_name@ == "Genshin Impact"@
        &&& e.publisher@ == "米哈游"@
        &&& e.regions@ == seq![Region::Cn, Region::Global, Region::Bili]
        &&& opt_url(e.official_url) == Some("https://ys.mihoyo.com/"@)
    } else if i == 2 {
        &&& e.name@ == "崩坏：星穹铁道"@
        &&& e.en_name@ == "Honkai: Star Rail"@
        &&& e.publisher@ == "米哈游"@
        &&& e.regions@ == seq![Region::Cn, Region::Global]
        &&& opt_url(e.official_url) == Some("https://sr.mihoyo.com/"@)
    } else if i == 3 {
        &&& e.name@ == "绝区零"@
        &&& e.en_name@ == "Zenless Zone Zero"@
        &&& e.publisher@ == "米哈游"@
        &&& e.regions@ == seq![Region::Cn, Region::Global]
        &&& opt_url(e.official_url) == Some("https://zzz.mihoyo.com/"@)
    } else {
        &&& e.name@ == "明日方舟：终末地"@
        &&& e.en_name@ == "Arknights: Endfield"@
        &&& e.publisher@ == "鹰角网络"@
        &&& e.regions@ == seq![Region::Cn]
        &&& opt_url(e.official_url) == Some("https://endfield.hypergryph.com/"@)
    }
}

/// The five games, in display order.
pub fn game_catalog() -> (r: Vec<GameEntry>)
    ensures
        r@.len() == 5,
        forall|i: int| 0 <= i < 5 ==> catalog_entry_is(#[trigger] r@[i], i),
{
    let wuwa: &'static [Region] = &[Region::Cn, Region::Global];
    let genshin: &'static [Region] = &[Region::Cn, Region::Global, Region::Bili];
    let star_rail: &'static [Region] = &[Region::Cn, Region::Global];
    let zzz: &'static [Region] = &[Region::Cn, Region::Global];
    let endfield: &'static [Region] = &[Region::Cn];
    assert(wuwa@ =~= seq![Region::Cn, Region::Global]);
    assert(endfield@ =~= seq![Region::Cn]);
    let r = vec![
        GameEntry {
            id: "wuthering-waves",
            name: "鸣潮",
            en_name: "Wuthering Waves",
            publisher: "库洛游戏",
            regions: wuwa,
            official_url: Some("https://mc.kurogames.com/"),
        },
        GameEntry {
            id: "genshin-impact",
            name: "原神",
            en_name: "Genshin Impact",
            publisher: "米哈游",
            regions: genshin,
            official_url: Some("https://ys.mihoyo.com/"),
        },
        GameEntry {
            id: "honkai-star-rail",
            name: "崩坏：星穹铁道",
            en_name: "Honkai: Star Rail",
            publisher: "米哈游",
            regions: star_rail,
            official_url: Some("https://sr.mihoyo.com/"),
        },
        GameEntry {
            id: "zenless-zone-zero",
            name: "绝区零",
            en_name: "Zenless Zone Zero",
            publisher: "米哈游",
            regions: zzz,
            official_url: Some("https://zzz.mihoyo.com/"),
        },
        GameEntry {
            id: "arknights-endfield",
            name: "明日方舟：终末地",
            en_name: "Arknights: Endfield",
            publisher: "鹰角网络",
            regions: endfield,
            official_url: Some("https://endfield.hypergryph.com/"),
        },
    ];
    assert(catalog_entry_is(r@[0], 0));
    assert(catalog_entry_is(r@[4], 4));
    r
}

/// The catalog slugs are pairwise different.
pub proof fn lemma_catalog_ids_distinct()
    ensures
        forall|i: int, j: int|
            0 <= i < j < 5 ==> #[trigger] catalog_ids()[i] != #[trigger] catalog_ids()[j],
{
    reveal_strlit("wuthering-waves");
    reveal_strlit("genshin-impact");
    reveal_strlit("honkai-star-rail");
    reveal_strlit("zenless-zone-zero");
    reveal_strlit("arknights-endfield");
    assert(catalog_ids()[0].len() == 15);
    assert(catalog_ids()[1].len() == 14);
    assert(catalog_ids()[2].len() == 16);
    assert(catalog_ids()[3].len() == 17);
    assert(catalog_ids()[4].len() == 18);
}

/// The catalog entry with the slug; `None` for an unknown slug (matching is exact).
pub fn find(id: &str) -> (r: Option<GameEntry>)
    ensures
        match r {
            Some(e) => exists|i: int| 0 <= i < 5 && catalog_ids()[i] == id@ && catalog_entry_is(e, i),
            None => !catalog_ids().contains(id@),
        },
{
    let catalog = game_catalog();
    let mut i: usize = 0;
    while i < catalog.len()
        invariant
            catalog@.len() == 5,
            forall|k: int| 0 <= k < 5 ==> catalog_entry_is(#[trigger] catalog@[k], k),
            i <= 5,
            forall|k: int| 0 <= k < i ==> catalog_ids()[k] != id@,
        decreases 5 - i,
    {
        assert(catalog_entry_is(catalog@[i as int], i as int));
        if str_eq(catalog[i].id, id) {
            return Some(catalog[i]);
        }
        i = i + 1;
    }
    assert(!catalog_ids().contains(id@)) by {
        if catalog_ids().contains(id@) {
            let k = choose|k: int| 0 <= k < catalog_ids().len() && catalog_ids()[k] == id@;
            assert(catalog_ids()[k] != id@);
        }
    }
    None
}

/// Whether the slug is in the catalog (exact match).
pub fn contains(id: &str) -> (r: bool)
    ensures
        r == catalog_ids().contains(id@),
{
    match find(id) {
        Some(e) => {
            true
        },
        None => false,
    }
}

} // verus!
