//! What each game's provider declares it can do: here, whether it has a
//! configuration source that backups can cover.
//!
//! The answer is a property of the game, not of an installation, and the
//! table must list exactly the games of the catalog.

use vstd::prelude::*;

use crate::catalog::catalog_ids;
use crate::text::str_eq;

verus! {

/// Whether a game's provider declares a configuration source.
#[derive(Debug, Clone, Copy, PartialEq, Eq, Structural)]
pub enum ConfigCapability {
    /// Declared: its configuration can be backed up.
    Declared,
    /// Not declared by the provider (yet).
    ProviderNotDeclared,
    /// Does not apply: the game's tools never write to disk.
    NotApplicable,
}

impl ConfigCapability {
    pub fn has_config_source(self) -> (r: bool)
        ensures
            r == (self == ConfigCapability::Declared),
    {
        match self {
            ConfigCapability::Declared => true,
            _ => false,
        }
    }

    pub open spec fn reason_text(self) -> Option<Seq<char>> {
        match self {
            ConfigCapability::Declared => None,
            ConfigCapability::ProviderNotDeclared => Some("provider_not_declared"@),
            ConfigCapability::NotApplicable => Some("not_applicable"@),
        }
    }

    /// Why there is no configuration source; `None` when there is one.
    pub fn unsupported_reason(self) -> (r: Option<&'static str>)
        ensures
            match r {
                Some(s) => self.reason_text() == Some(s@),
                None => self.reason_text() is None,
            },
    {
        match self {
            ConfigCapability::Declared => None,
            ConfigCapability::ProviderNotDeclared => Some("provider_not_declared"),
            ConfigCapability::NotApplicable => Some("not_applicable"),
        }
    }
}

/// One game's declared capabilities.
#[derive(Debug, Clone, Copy, PartialEq, Eq)]
pub struct GameCapabilities {
    /// The game's slug (a catalog slug).
    pub game_id: &'static str,
    pub config: ConfigCapability,
}

/// The game of each row of the table, in table order.
pub open spec fn capability_ids() -> Seq<Seq<char>> {
    seq![
        "wuthering-waves"@,
        "genshin-impact"@,
        "honkai-star-rail"@,
        "zenless-zone-zero"@,
        "arknights-endfield"@,
    ]
}

/// The capability of each row.
pub open spec fn capability_at(i: int) -> ConfigCapability {
    if i == 0 {
        ConfigCapability::Declared
    } else if i == 1 {
        ConfigCapability::NotApplicable
    } else {
        ConfigCapability::ProviderNotDeclared
    }
}

/// The capability table.
pub fn game_capabilities() -> (r: Vec<GameCapabilities>)
    ensures
        r@.len() == 5,
        forall|i: int|
            0 <= i < 5 ==> (#[trigger] r@[i]).game_id@ == capability_ids()[i] && r@[i].config
                == capability_at(i),
{
    vec![
        GameCapabilities { game_id: "wuthering-waves", config: ConfigCapability::Declared },
        GameCapabilities { game_id: "genshin-impact", config: ConfigCapability::NotApplicable },
        GameCapabilities {
            game_id: "honkai-star-rail",
            config: ConfigCapability::ProviderNotDeclared,
        },
        GameCapabilities {
            game_id: "zenless-zone-zero",
            config: ConfigCapability::ProviderNotDeclared,
        },
        GameCapabilities {
            game_id: "arknights-endfield",
            config: ConfigCapability::ProviderNotDeclared,
        },
    ]
}

/// The capabilities of a game; `None` for a game not in the table (there is
/// no default).
pub fn capabilities(game_id: &str) -> (r: Option<GameCapabilities>)
    ensures
        match r {
            Some(c) => exists|i: int|
                0 <= i < 5 && capability_ids()[i] == game_id@ && c.game_id@ == game_id@ && c.config
                    == capability_at(i),
            None => !capability_ids().contains(game_id@),
        },
{
    let table = game_capabilities();
    let mut i: usize = 0;
    while i < table.len()
        invariant
            table@.len() == 5,
            forall|k: int|
                0 <= k < 5 ==> (#[trigger] table@[k]).game_id@ == capability_ids()[k]
                    && table@[k].config == capability_at(k),
            i <= 5,
            forall|k: int| 0 <= k < i ==> capability_ids()[k] != game_id@,
        decreases 5 - i,
    {
        assert(table@[i as int].game_id@ == capability_ids()[i as int]);
        if str_eq(table[i].game_id, game_id) {
            return Some(table[i]);
        }
        i = i + 1;
    }
    assert(!capability_ids().contains(game_id@)) by {
        if capability_ids().contains(game_id@) {
            let k = choose|k: int| 0 <= k < capability_ids().len() && capability_ids()[k] == game_id@;
            assert(capability_ids()[k] != game_id@);
        }
    }
    None
}

/// The table lists exactly the catalog's games, in the same order.
pub proof fn lemma_capabilities_cover_catalog()
    ensures
        capability_ids() == catalog_ids(),
{
}

/// Only the first game declares a configuration source.
pub proof fn lemma_single_declared_source()
    ensures
        forall|i: int| 0 <= i < 5 ==> (capability_at(i) == ConfigCapability::Declared <==> i == 0),
{
}

} // verus!
