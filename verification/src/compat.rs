//! Compatibility matching: `exact → prefix → Unknown`.
//!
//! The compatibility table is the single authority on whether a tool works
//! with a game version. A miss, an unknown local version or a missing
//! entry all land on `Unknown`, the default safe state — never on a
//! guessed `Compatible`.

use vstd::prelude::*;

use crate::text::{append_str, clone_opt, clone_strings, owned, str_eq};
use crate::version::{parsed_version, prefix_key_major, version_text, Version};

verus! {

/// The five compatibility states.
#[derive(Debug, Clone, Copy, PartialEq, Eq, Structural)]
pub enum CompatStatus {
    /// Direct verification evidence for the version.
    Verified,
    /// Inferred to work, not tested.
    Compatible,
    /// No entry or not verified: the default safe state.
    Unknown,
    /// Known broken: hard block.
    Incompatible,
    /// Superseded: hard block with migration guidance.
    Deprecated,
}

impl CompatStatus {
    pub open spec fn slug_text(self) -> Seq<char> {
        match self {
            CompatStatus::Verified => "verified"@,
            CompatStatus::Compatible => "compatible"@,
            CompatStatus::Unknown => "unknown"@,
            CompatStatus::Incompatible => "incompatible"@,
            CompatStatus::Deprecated => "deprecated"@,
        }
    }

    pub open spec fn seed_literal_text(self) -> Seq<char> {
        match self {
            CompatStatus::Verified => "Verified"@,
            CompatStatus::Compatible => "Compatible"@,
            CompatStatus::Unknown => "Unknown"@,
            CompatStatus::Incompatible => "Incompatible"@,
            CompatStatus::Deprecated => "Deprecated"@,
        }
    }

    pub open spec fn parse_seed_literal(s: Seq<char>) -> Option<CompatStatus> {
        if s == "Verified"@ {
            Some(CompatStatus::Verified)
        } else if s == "Compatible"@ {
            Some(CompatStatus::Compatible)
        } else if s == "Unknown"@ {
            Some(CompatStatus::Unknown)
        } else if s == "Incompatible"@ {
            Some(CompatStatus::Incompatible)
        } else if s == "Deprecated"@ {
            Some(CompatStatus::Deprecated)
        } else {
            None
        }
    }

    /// Lowercase literal used in storage and across the IPC boundary.
    pub fn slug(self) -> (r: &'static str)
        ensures
            r@ == self.slug_text(),
    {
        match self {
            CompatStatus::Verified => "verified",
            CompatStatus::Compatible => "compatible",
            CompatStatus::Unknown => "unknown",
            CompatStatus::Incompatible => "incompatible",
            CompatStatus::Deprecated => "deprecated",
        }
    }

    /// Parses the capitalized form used in the compatibility table; case
    /// and white-space errors are rejected.
    pub fn from_seed_literal(literal: &str) -> (r: Option<CompatStatus>)
        ensures
            r == CompatStatus::parse_seed_literal(literal@),
    {
        if str_eq(literal, "Verified") {
            Some(CompatStatus::Verified)
        } else if str_eq(literal, "Compatible") {
            Some(CompatStatus::Compatible)
        } else if str_eq(literal, "Unknown") {
            Some(CompatStatus::Unknown)
        } else if str_eq(literal, "Incompatible") {
            Some(CompatStatus::Incompatible)
        } else if str_eq(literal, "Deprecated") {
            Some(CompatStatus::Deprecated)
        } else {
            None
        }
    }

    pub open spec fn usable(self) -> bool {
        self == CompatStatus::Verified || self == CompatStatus::Compatible
    }

    pub open spec fn hard_blocked(self) -> bool {
        self == CompatStatus::Incompatible || self == CompatStatus::Deprecated
    }

    /// May be enabled directly (input of the enable gate).
    pub fn is_usable(self) -> (r: bool)
        ensures
            r == self.usable(),
    {
        match self {
            CompatStatus::Verified | CompatStatus::Compatible => true,
            _ => false,
        }
    }

    /// Hard-blocked: incompatible or deprecated, with no override.
    pub fn is_hard_blocked(self) -> (r: bool)
        ensures
            r == self.hard_blocked(),
    {
        match self {
            CompatStatus::Incompatible | CompatStatus::Deprecated => true,
            _ => false,
        }
    }
}

pub proof fn lemma_compat_status_literals(s: CompatStatus)
    ensures
        CompatStatus::parse_seed_literal(s.seed_literal_text()) == Some(s),
{
    reveal_strlit("Verified");
    reveal_strlit("Compatible");
    reveal_strlit("Unknown");
    reveal_strlit("Incompatible");
    reveal_strlit("Deprecated");
    assert("Verified"@.len() == 8 && "Compatible"@.len() == 10 && "Unknown"@.len() == 7);
    assert("Incompatible"@.len() == 12 && "Deprecated"@.len() == 10);
    assert("Compatible"@[0] != "Deprecated"@[0]);
}

/// How a record's version key is matched (default exact).
#[derive(Debug, Clone, Copy, PartialEq, Eq, Structural)]
pub enum VersionMatch {
    Exact,
    Prefix,
}

/// Which layer a query hit.
#[derive(Debug, Clone, Copy, PartialEq, Eq, Structural)]
pub enum MatchKind {
    Exact,
    Prefix,
    /// No hit: always paired with `CompatStatus::Unknown`.
    Unmatched,
}

/// One compatibility record of an entry.
#[derive(Debug, Clone, PartialEq, Eq)]
pub struct CompatRecord {
    /// `7.0` for exact records, `3.x` for prefix records.
    pub game_version: String,
    pub version_match: VersionMatch,
    pub status: CompatStatus,
    pub notes: Option<String>,
    /// Evidence links (empty when none were given).
    pub evidence: Vec<String>,
    /// Verification date, `YYYY-MM-DD` as written in the table.
    pub verified_at: Option<String>,
    pub verified_by: Option<String>,
}

impl CompatRecord {
    pub fn exact(game_version: &str, status: CompatStatus) -> (r: CompatRecord)
        ensures
            r.game_version@ == game_version@,
            r.version_match == VersionMatch::Exact,
            r.status == status,
            r.notes is None,
            r.evidence@.len() == 0,
            r.verified_at is None,
            r.verified_by is None,
    {
        CompatRecord {
            game_version: owned(game_version),
            version_match: VersionMatch::Exact,
            status,
            notes: None,
            evidence: Vec::new(),
            verified_at: None,
            verified_by: None,
        }
    }

    pub fn prefix(game_version: &str, status: CompatStatus) -> (r: CompatRecord)
        ensures
            r.game_version@ == game_version@,
            r.version_match == VersionMatch::Prefix,
            r.status == status,
            r.notes is None,
            r.evidence@.len() == 0,
            r.verified_at is None,
            r.verified_by is None,
    {
        CompatRecord {
            game_version: owned(game_version),
            version_match: VersionMatch::Prefix,
            status,
            notes: None,
            evidence: Vec::new(),
            verified_at: None,
            verified_by: None,
        }
    }

    pub fn with_notes(self, notes: &str) -> (r: CompatRecord)
        ensures
            r == (CompatRecord { notes: r.notes, ..self }),
            r.notes matches Some(n) && n@ == notes@,
    {
        CompatRecord { notes: Some(owned(notes)), ..self }
    }

    pub fn with_notes_opt(self, notes: Option<String>) -> (r: CompatRecord)
        ensures
            r == (CompatRecord { notes, ..self }),
    {
        CompatRecord { notes, ..self }
    }

    pub fn with_evidence(self, evidence: Vec<String>) -> (r: CompatRecord)
        ensures
            r == (CompatRecord { evidence, ..self }),
    {
        CompatRecord { evidence, ..self }
    }

    pub fn with_verification(self, verified_at: Option<String>, verified_by: Option<String>) -> (r:
        CompatRecord)
        ensures
            r == (CompatRecord { verified_at, verified_by, ..self }),
    {
        CompatRecord { verified_at, verified_by, ..self }
    }

    pub open spec fn matches_version(self, local: Version) -> bool {
        match self.version_match {
            VersionMatch::Exact => parsed_version(self.game_version@) == Some(local),
            VersionMatch::Prefix => prefix_key_major(self.game_version@) == Some(local.major),
        }
    }

    /// Whether this record covers `local`.
    pub fn matches(&self, local: Version) -> (r: bool)
        ensures
            r == self.matches_version(local),
    {
        match self.version_match {
            VersionMatch::Exact => match Version::parse(self.game_version.as_str()) {
                Some(v) => v == local,
                None => false,
            },
            VersionMatch::Prefix => local.matches_prefix(self.game_version.as_str()),
        }
    }
}

/// One "game × tool" entry of the compatibility table.
#[derive(Debug, Clone, PartialEq, Eq)]
pub struct CompatEntry {
    pub game_id: String,
    pub tool_id: String,
    pub compatibility: Vec<CompatRecord>,
}

impl CompatEntry {
    pub fn new(game_id: &str, tool_id: &str, compatibility: Vec<CompatRecord>) -> (r: CompatEntry)
        ensures
            r.game_id@ == game_id@,
            r.tool_id@ == tool_id@,
            r.compatibility == compatibility,
    {
        CompatEntry { game_id: owned(game_id), tool_id: owned(tool_id), compatibility }
    }
}

/// The outcome of a compatibility query.
#[derive(Debug, Clone, PartialEq, Eq)]
pub struct Compatibility {
    pub status: CompatStatus,
    pub match_kind: MatchKind,
    pub matched_version_key: Option<String>,
    pub notes: Option<String>,
    pub verified_at: Option<String>,
    pub verified_by: Option<String>,
}

/// A record of the given kind that covers `local`.
pub open spec fn hits(r: CompatRecord, kind: VersionMatch, local: Version) -> bool {
    r.version_match == kind && r.matches_version(local)
}

/// Index of the first record of `kind` that covers `local`.
pub open spec fn first_hit(rs: Seq<CompatRecord>, kind: VersionMatch, local: Version) -> Option<int>
    decreases rs.len(),
{
    if rs.len() == 0 {
        None
    } else if hits(rs[0], kind, local) {
        Some(0)
    } else {
        match first_hit(rs.drop_first(), kind, local) {
            Some(i) => Some(i + 1),
            None => None,
        }
    }
}

/// The text view of an optional `String`.
pub open spec fn opt_text(o: Option<String>) -> Option<Seq<char>> {
    match o {
        Some(s) => Some(s@),
        None => None,
    }
}

/// The value of a `Compatibility` with its texts taken by their view.
pub struct CompatibilityView {
    pub status: CompatStatus,
    pub match_kind: MatchKind,
    pub matched_version_key: Option<Seq<char>>,
    pub notes: Option<Seq<char>>,
    pub verified_at: Option<Seq<char>>,
    pub verified_by: Option<Seq<char>>,
}

impl View for Compatibility {
    type V = CompatibilityView;

    open spec fn view(&self) -> CompatibilityView {
        CompatibilityView {
            status: self.status,
            match_kind: self.match_kind,
            matched_version_key: opt_text(self.matched_version_key),
            notes: opt_text(self.notes),
            verified_at: opt_text(self.verified_at),
            verified_by: opt_text(self.verified_by),
        }
    }
}

/// The default safe state, with the reason in `notes`.
pub open spec fn unknown_view(notes: Seq<char>) -> CompatibilityView {
    CompatibilityView {
        status: CompatStatus::Unknown,
        match_kind: MatchKind::Unmatched,
        matched_version_key: None,
        notes: Some(notes),
        verified_at: None,
        verified_by: None,
    }
}

/// The result of hitting record `r` at layer `kind`.
pub open spec fn hit_view(r: CompatRecord, kind: MatchKind) -> CompatibilityView {
    CompatibilityView {
        status: r.status,
        match_kind: kind,
        matched_version_key: Some(r.game_version@),
        notes: opt_text(r.notes),
        verified_at: opt_text(r.verified_at),
        verified_by: opt_text(r.verified_by),
    }
}

pub open spec fn no_entry_note() -> Seq<char> {
    "种子表无该工具条目"@
}

pub open spec fn local_unknown_note() -> Seq<char> {
    "本地版本未知，无法判定"@
}

pub open spec fn no_record_note(v: Version) -> Seq<char> {
    "种子表无 "@ + version_text(v) + " 条目，落到默认安全态"@
}

/// `exact → prefix → Unknown`.
pub open spec fn query_view(entry: Option<CompatEntry>, local: Option<Version>) -> CompatibilityView {
    match entry {
        None => unknown_view(no_entry_note()),
        Some(e) => match local {
            None => unknown_view(local_unknown_note()),
            Some(v) => match first_hit(e.compatibility@, VersionMatch::Exact, v) {
                Some(i) => hit_view(e.compatibility@[i], MatchKind::Exact),
                None => match first_hit(e.compatibility@, VersionMatch::Prefix, v) {
                    Some(i) => hit_view(e.compatibility@[i], MatchKind::Prefix),
                    None => unknown_view(no_record_note(v)),
                },
            },
        },
    }
}

/// A scan that found no covering record before `k` and one at `k` has
/// found the first hit.
pub proof fn lemma_first_hit(rs: Seq<CompatRecord>, kind: VersionMatch, local: Version, k: int)
    requires
        0 <= k <= rs.len(),
        forall|j: int| 0 <= j < k ==> !hits(#[trigger] rs[j], kind, local),
        k < rs.len() ==> hits(rs[k], kind, local),
    ensures
        first_hit(rs, kind, local) == (if k < rs.len() { Some(k) } else { None::<int> }),
    decreases k,
{
    if rs.len() > 0 && k > 0 {
        assert(!hits(rs[0], kind, local));
        let t = rs.drop_first();
        assert forall|j: int| 0 <= j < k - 1 implies !hits(#[trigger] t[j], kind, local) by {
            assert(t[j] == rs[j + 1]);
        }
        if k < rs.len() {
            assert(t[k - 1] == rs[k]);
        }
        lemma_first_hit(t, kind, local, k - 1);
    }
}

/// The first hit, if any, is a covering record.
pub proof fn lemma_first_hit_is_hit(rs: Seq<CompatRecord>, kind: VersionMatch, local: Version)
    ensures
        first_hit(rs, kind, local) matches Some(i) ==> 0 <= i < rs.len() && hits(rs[i], kind, local),
    decreases rs.len(),
{
    if rs.len() > 0 && !hits(rs[0], kind, local) {
        lemma_first_hit_is_hit(rs.drop_first(), kind, local);
    }
}

fn find_hit(rs: &Vec<CompatRecord>, kind: VersionMatch, local: Version) -> (r: Option<usize>)
    ensures
        match r {
            Some(i) => i < rs.len() && first_hit(rs@, kind, local) == Some(i as int),
            None => first_hit(rs@, kind, local) is None,
        },
{
    let mut i: usize = 0;
    while i < rs.len()
        invariant
            i <= rs.len(),
            forall|j: int| 0 <= j < i ==> !hits(#[trigger] rs@[j], kind, local),
        decreases rs.len() - i,
    {
        let r = &rs[i];
        if r.version_match == kind && r.matches(local) {
            proof {
                lemma_first_hit(rs@, kind, local, i as int);
            }
            return Some(i);
        }
        i = i + 1;
    }
    proof {
        lemma_first_hit(rs@, kind, local, i as int);
    }
    None
}

fn unknown(notes: String) -> (r: Compatibility)
    ensures
        r@ == unknown_view(notes@),
{
    Compatibility {
        status: CompatStatus::Unknown,
        match_kind: MatchKind::Unmatched,
        matched_version_key: None,
        notes: Some(notes),
        verified_at: None,
        verified_by: None,
    }
}

fn hit(r: &CompatRecord, kind: MatchKind) -> (c: Compatibility)
    ensures
        c@ == hit_view(*r, kind),
{
    Compatibility {
        status: r.status,
        match_kind: kind,
        matched_version_key: Some(r.game_version.clone()),
        notes: clone_opt(&r.notes),
        verified_at: clone_opt(&r.verified_at),
        verified_by: clone_opt(&r.verified_by),
    }
}

/// Compatibility query: `exact → prefix → Unknown`.
///
/// A missing entry or an unknown local version never guesses: both land on
/// `Unknown` directly.
pub fn query(entry: Option<&CompatEntry>, local: Option<Version>) -> (r: Compatibility)
    ensures
        r@ == query_view(
            match entry {
                Some(e) => Some(*e),
                None => None,
            },
            local,
        ),
{
    let entry = match entry {
        Some(e) => e,
        None => return unknown(owned("种子表无该工具条目")),
    };
    let local = match local {
        Some(v) => v,
        None => return unknown(owned("本地版本未知，无法判定")),
    };
    match find_hit(&entry.compatibility, VersionMatch::Exact, local) {
        Some(i) => return hit(&entry.compatibility[i], MatchKind::Exact),
        None => {},
    }
    match find_hit(&entry.compatibility, VersionMatch::Prefix, local) {
        Some(i) => return hit(&entry.compatibility[i], MatchKind::Prefix),
        None => {},
    }
    let mut notes = owned("种子表无 ");
    append_str(&mut notes, local.to_string().as_str());
    append_str(&mut notes, " 条目，落到默认安全态");
    unknown(notes)
}

/// A query that matched nothing is always `Unknown`; a query that matched
/// reports the status and key of the record it hit.
pub proof fn lemma_query_none_is_unknown(entry: Option<CompatEntry>, local: Option<Version>)
    ensures
        query_view(entry, local).match_kind == MatchKind::Unmatched ==> query_view(entry, local).status
            == CompatStatus::Unknown,
        query_view(entry, local).match_kind != MatchKind::Unmatched ==> query_view(
            entry,
            local,
        ).matched_version_key is Some,
        entry is None || local is None ==> query_view(entry, local).status == CompatStatus::Unknown,
{
}

/// An exact hit always wins over any prefix record, and a hit covers the
/// local version.
pub proof fn lemma_query_hit_covers(e: CompatEntry, v: Version)
    ensures
        first_hit(e.compatibility@, VersionMatch::Exact, v) is Some ==> query_view(
            Some(e),
            Some(v),
        ).match_kind == MatchKind::Exact,
        query_view(Some(e), Some(v)).match_kind == MatchKind::Exact ==> exists|i: int|
            0 <= i < e.compatibility@.len() && hits(
                #[trigger] e.compatibility@[i],
                VersionMatch::Exact,
                v,
            ),
        query_view(Some(e), Some(v)).match_kind == MatchKind::Prefix ==> exists|i: int|
            0 <= i < e.compatibility@.len() && hits(
                #[trigger] e.compatibility@[i],
                VersionMatch::Prefix,
                v,
            ),
{
    lemma_first_hit_is_hit(e.compatibility@, VersionMatch::Exact, v);
    lemma_first_hit_is_hit(e.compatibility@, VersionMatch::Prefix, v);
}

} // verus!
