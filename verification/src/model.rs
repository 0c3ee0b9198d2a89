//! Identifier and status vocabulary shared across the library.
//!
//! `GameId` is an opaque, validated slug rather than a closed enum: the
//! game list belongs to the provider catalog, so adding a game never
//! touches this module.

use vstd::prelude::*;

use crate::text::{chars_of, is_digit, str_eq};

verus! {

/// A character allowed in a slug: ASCII lowercase letter, digit or `-`.
pub open spec fn slug_char(c: char) -> bool {
    ('a' <= c && c <= 'z') || is_digit(c) || c == '-'
}

/// The slug rule: 1 to 64 characters from `[a-z0-9-]`, not starting or
/// ending with `-`.
pub open spec fn valid_slug(s: Seq<char>) -> bool {
    &&& 1 <= s.len() <= 64
    &&& forall|i: int| 0 <= i < s.len() ==> slug_char(#[trigger] s[i])
    &&& s[0] != '-'
    &&& s.last() != '-'
}

/// A game identifier. Holding one means the slug is well-formed.
#[derive(Debug, Clone, PartialEq, Eq, Hash, PartialOrd, Ord)]
pub struct GameId(String);

impl View for GameId {
    type V = Seq<char>;

    closed spec fn view(&self) -> Seq<char> {
        self.0@
    }
}

/// Whether `cs[lo..hi]` is a well-formed slug.
pub fn slug_in(cs: &Vec<char>, lo: usize, hi: usize) -> (r: bool)
    requires
        lo <= hi <= cs.len(),
    ensures
        r == valid_slug(cs@.subrange(lo as int, hi as int)),
{
    let ghost s = cs@.subrange(lo as int, hi as int);
    if hi - lo == 0 || hi - lo > 64 {
        return false;
    }
    let mut i = lo;
    while i < hi
        invariant
            lo <= i <= hi <= cs.len(),
            s == cs@.subrange(lo as int, hi as int),
            forall|j: int| lo <= j < i ==> slug_char(#[trigger] cs@[j]),
        decreases hi - i,
    {
        let c = cs[i];
        if !(('a' <= c && c <= 'z') || ('0' <= c && c <= '9') || c == '-') {
            assert(s[i - lo] == c);
            return false;
        }
        i = i + 1;
    }
    assert forall|j: int| 0 <= j < s.len() implies slug_char(#[trigger] s[j]) by {
        assert(s[j] == cs@[lo + j]);
    }
    assert(s[0] == cs@[lo as int]);
    assert(s.last() == cs@[hi - 1]);
    cs[lo] != '-' && cs[hi - 1] != '-'
}

/// Whether `s` is a well-formed slug.
pub fn check_slug(s: &str) -> (r: bool)
    ensures
        r == valid_slug(s@),
{
    let cs = chars_of(s);
    assert(cs@.subrange(0, cs.len() as int) =~= s@);
    slug_in(&cs, 0, cs.len())
}

impl GameId {
    /// Validates and builds; `None` when the slug breaks the rule.
    pub fn new(slug: &str) -> (r: Option<GameId>)
        ensures
            r is Some <==> valid_slug(slug@),
            r matches Some(g) ==> g@ == slug@,
    {
        if check_slug(slug) {
            Some(GameId(String::from_str(slug)))
        } else {
            None
        }
    }

    pub fn as_str(&self) -> (r: &str)
        ensures
            r@ == self@,
    {
        self.0.as_str()
    }

    /// The slug as text (the `Display` form).
    pub fn to_string(&self) -> (r: String)
        ensures
            r@ == self@,
    {
        self.0.clone()
    }

    /// Form check for an identifier (no existence check).
    pub fn is_valid_slug(slug: &str) -> (r: bool)
        ensures
            r == valid_slug(slug@),
    {
        check_slug(slug)
    }
}

/// The identifier is not a well-formed slug.
#[derive(Debug, Clone, Copy, PartialEq, Eq)]
pub struct InvalidGameId;

impl std::str::FromStr for GameId {
    type Err = InvalidGameId;

    fn from_str(s: &str) -> (r: Result<GameId, InvalidGameId>)
        ensures
            r is Ok <==> valid_slug(s@),
            r matches Ok(g) ==> g@ == s@,
    {
        match GameId::new(s) {
            Some(id) => Ok(id),
            None => Err(InvalidGameId),
        }
    }
}

/// Game region: a product-wide concept with three fixed values, always
/// lowercase in storage and across the IPC boundary.
#[derive(Debug, Clone, Copy, PartialEq, Eq, Structural, Hash)]
pub enum Region {
    Cn,
    Global,
    Bili,
}

impl Region {
    pub const ALL: [Region; 3] = [Region::Cn, Region::Global, Region::Bili];

    pub open spec fn slug_text(self) -> Seq<char> {
        match self {
            Region::Cn => "cn"@,
            Region::Global => "global"@,
            Region::Bili => "bili"@,
        }
    }

    pub open spec fn parse_text(s: Seq<char>) -> Option<Region> {
        if s == "cn"@ {
            Some(Region::Cn)
        } else if s == "global"@ {
            Some(Region::Global)
        } else if s == "bili"@ {
            Some(Region::Bili)
        } else {
            None
        }
    }

    pub fn slug(self) -> (r: &'static str)
        ensures
            r@ == self.slug_text(),
    {
        match self {
            Region::Cn => "cn",
            Region::Global => "global",
            Region::Bili => "bili",
        }
    }

    /// Strict parse of the lowercase slug; display text is rejected.
    pub fn from_slug(slug: &str) -> (r: Option<Region>)
        ensures
            r == Region::parse_text(slug@),
    {
        if str_eq(slug, "cn") {
            Some(Region::Cn)
        } else if str_eq(slug, "global") {
            Some(Region::Global)
        } else if str_eq(slug, "bili") {
            Some(Region::Bili)
        } else {
            None
        }
    }
}

/// Every region's slug parses back to that region.
pub proof fn lemma_region_slug_roundtrip(r: Region)
    ensures
        Region::parse_text(r.slug_text()) == Some(r),
{
    reveal_strlit("cn");
    reveal_strlit("global");
    reveal_strlit("bili");
    assert("cn"@.len() == 2 && "global"@.len() == 6 && "bili"@.len() == 4);
}

/// The mutually exclusive runtime status of an installation.
#[derive(Debug, Clone, Copy, PartialEq, Eq, Structural)]
pub enum GameRuntimeStatus {
    Installed,
    Running,
    Updating,
    Repairing,
    Broken,
}

impl GameRuntimeStatus {
    pub open spec fn slug_text(self) -> Seq<char> {
        match self {
            GameRuntimeStatus::Installed => "installed"@,
            GameRuntimeStatus::Running => "running"@,
            GameRuntimeStatus::Updating => "updating"@,
            GameRuntimeStatus::Repairing => "repairing"@,
            GameRuntimeStatus::Broken => "broken"@,
        }
    }

    pub open spec fn parse_text(s: Seq<char>) -> Option<GameRuntimeStatus> {
        if s == "installed"@ {
            Some(GameRuntimeStatus::Installed)
        } else if s == "running"@ {
            Some(GameRuntimeStatus::Running)
        } else if s == "updating"@ {
            Some(GameRuntimeStatus::Updating)
        } else if s == "repairing"@ {
            Some(GameRuntimeStatus::Repairing)
        } else if s == "broken"@ {
            Some(GameRuntimeStatus::Broken)
        } else {
            None
        }
    }

    pub fn slug(self) -> (r: &'static str)
        ensures
            r@ == self.slug_text(),
    {
        match self {
            GameRuntimeStatus::Installed => "installed",
            GameRuntimeStatus::Running => "running",
            GameRuntimeStatus::Updating => "updating",
            GameRuntimeStatus::Repairing => "repairing",
            GameRuntimeStatus::Broken => "broken",
        }
    }

    pub fn from_slug(slug: &str) -> (r: Option<GameRuntimeStatus>)
        ensures
            r == GameRuntimeStatus::parse_text(slug@),
    {
        if str_eq(slug, "installed") {
            Some(GameRuntimeStatus::Installed)
        } else if str_eq(slug, "running") {
            Some(GameRuntimeStatus::Running)
        } else if str_eq(slug, "updating") {
            Some(GameRuntimeStatus::Updating)
        } else if str_eq(slug, "repairing") {
            Some(GameRuntimeStatus::Repairing)
        } else if str_eq(slug, "broken") {
            Some(GameRuntimeStatus::Broken)
        } else {
            None
        }
    }
}

/// Every runtime status's slug parses back to that status.
pub proof fn lemma_runtime_status_slug_roundtrip(s: GameRuntimeStatus)
    ensures
        GameRuntimeStatus::parse_text(s.slug_text()) == Some(s),
{
    reveal_strlit("installed");
    reveal_strlit("running");
    reveal_strlit("updating");
    reveal_strlit("repairing");
    reveal_strlit("broken");
    assert("installed"@.len() == 9 && "running"@.len() == 7 && "updating"@.len() == 8);
    assert("repairing"@.len() == 9 && "broken"@.len() == 6);
    assert("installed"@[0] != "repairing"@[0]);
}

/// Display priority of the primary status label (smaller wins).
pub open spec fn status_rank(status: GameRuntimeStatus, update_available: bool) -> u8 {
    match status {
        GameRuntimeStatus::Running => 1,
        GameRuntimeStatus::Broken => 2,
        GameRuntimeStatus::Updating | GameRuntimeStatus::Repairing => 3,
        GameRuntimeStatus::Installed => if update_available {
            4
        } else {
            5
        },
    }
}

/// Display priority of the primary status label: running > broken >
/// updating/repairing > update available > installed.
pub fn primary_status_rank(status: GameRuntimeStatus, update_available: bool) -> (r: u8)
    ensures
        r == status_rank(status, update_available),
{
    match status {
        GameRuntimeStatus::Running => 1,
        GameRuntimeStatus::Broken => 2,
        GameRuntimeStatus::Updating | GameRuntimeStatus::Repairing => 3,
        GameRuntimeStatus::Installed => {
            if update_available {
                4
            } else {
                5
            }
        },
    }
}

/// The label order is total and strict: running outranks everything, an
/// installed game with an update outranks a plain installed one, and an
/// update never outranks running or broken.
pub proof fn lemma_status_rank_order(u: bool, v: bool)
    ensures
        status_rank(GameRuntimeStatus::Running, u) < status_rank(GameRuntimeStatus::Broken, v),
        status_rank(GameRuntimeStatus::Broken, u) < status_rank(GameRuntimeStatus::Updating, v),
        status_rank(GameRuntimeStatus::Updating, u) == status_rank(GameRuntimeStatus::Repairing, v),
        status_rank(GameRuntimeStatus::Repairing, u) < status_rank(GameRuntimeStatus::Installed, v),
        status_rank(GameRuntimeStatus::Installed, true) < status_rank(GameRuntimeStatus::Installed, false),
{
}

} // verus!
