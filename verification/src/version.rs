//! Version normalization and comparison.
//!
//! Executables report multi-part build numbers (`7.0.10.4821`) while the
//! compatibility table and remote sources speak `major.minor`. Everything
//! is compared only after normalization to `(major, minor)`, and any
//! missing or non-numeric segment means "unknown" (`None`) — never a guess.

use std::cmp::Ordering;
use vstd::prelude::*;

use crate::text::{
    after, before, chars_of, decimal_chars, find_char, is_digit, is_space, lemma_decimal_chars,
    lemma_first_index, parse_u32, push_char, push_decimal, range_eq, segment, trim_bounds, trimmed,
};

verus! {

/// A normalized `major.minor` version. Holding one means the version is known.
#[derive(Debug, Clone, Copy, PartialEq, Eq, Structural, PartialOrd, Ord, Hash)]
pub struct Version {
    pub major: u32,
    pub minor: u32,
}

/// Numeric order on `(major, minor)`.
pub open spec fn version_lt(a: Version, b: Version) -> bool {
    a.major < b.major || (a.major == b.major && a.minor < b.minor)
}

/// `Version::parse`: the trimmed text is exactly two digit runs joined by one dot.
pub open spec fn parsed_version(text: Seq<char>) -> Option<Version> {
    let t = trimmed(text);
    match after(t, '.') {
        None => None,
        Some(rest) => match (segment(before(t, '.')), segment(rest)) {
            (Some(major), Some(minor)) => Some(Version { major, minor }),
            _ => None,
        },
    }
}

/// `normalize`: the first two dot-separated segments of the trimmed text.
pub open spec fn normalized_version(raw: Seq<char>) -> Option<Version> {
    let t = trimmed(raw);
    match after(t, '.') {
        None => None,
        Some(rest) => match (segment(before(t, '.')), segment(before(rest, '.'))) {
            (Some(major), Some(minor)) => Some(Version { major, minor }),
            _ => None,
        },
    }
}

/// The major version of a prefix key `N.x`; `None` for any other shape.
pub open spec fn prefix_key_major(key: Seq<char>) -> Option<u32> {
    match after(key, '.') {
        Some(wildcard) => if wildcard == seq!['x'] {
            segment(before(key, '.'))
        } else {
            None
        },
        None => None,
    }
}

/// The text `major.minor`.
pub open spec fn version_text(v: Version) -> Seq<char> {
    decimal_chars(v.major as nat).push('.') + decimal_chars(v.minor as nat)
}

/// `(first, after)`: the segment before the first dot of `cs[lo..hi]` and
/// where the text after that dot begins (`None` when there is no dot).
fn split_dot(cs: &Vec<char>, lo: usize, hi: usize) -> (r: (usize, Option<usize>))
    requires
        lo <= hi <= cs.len(),
    ensures
        lo <= r.0 <= hi,
        cs@.subrange(lo as int, r.0 as int) == before(cs@.subrange(lo as int, hi as int), '.'),
        match r.1 {
            Some(a) => a == r.0 + 1 && a <= hi && after(cs@.subrange(lo as int, hi as int), '.')
                == Some(cs@.subrange(a as int, hi as int)),
            None => r.0 == hi && after(cs@.subrange(lo as int, hi as int), '.') is None,
        },
{
    let k = find_char(cs, lo, hi, '.');
    let ghost s = cs@.subrange(lo as int, hi as int);
    if k < hi {
        assert(s.take(k - lo) =~= cs@.subrange(lo as int, k as int));
        assert(s.skip(k - lo + 1) =~= cs@.subrange(k + 1, hi as int));
        (k, Some(k + 1))
    } else {
        assert(s =~= cs@.subrange(lo as int, k as int));
        (k, None)
    }
}

/// The value of the digit run `cs[lo..hi]` (`parse_segment`).
fn segment_at(cs: &Vec<char>, lo: usize, hi: usize) -> (r: Option<u32>)
    requires
        lo <= hi <= cs.len(),
    ensures
        r == segment(cs@.subrange(lo as int, hi as int)),
{
    parse_u32(cs, lo, hi)
}

impl Version {
    /// Strict `major.minor`: exactly two digit runs; more or fewer segments,
    /// signs, or letters give `None`.
    pub fn parse(text: &str) -> (r: Option<Version>)
        ensures
            r == parsed_version(text@),
    {
        let cs = chars_of(text);
        let (lo, hi) = trim_bounds(&cs, 0, cs.len());
        assert(cs@.subrange(0, cs.len() as int) =~= text@);
        let (first_end, rest) = split_dot(&cs, lo, hi);
        match rest {
            None => None,
            Some(a) => {
                let major = segment_at(&cs, lo, first_end);
                let minor = segment_at(&cs, a, hi);
                match (major, minor) {
                    (Some(major), Some(minor)) => Some(Version { major, minor }),
                    _ => None,
                }
            },
        }
    }

    /// Whether the prefix key (`3.x`) covers this version.
    pub fn matches_prefix(&self, prefix: &str) -> (r: bool)
        ensures
            r == (prefix_key_major(prefix@) == Some(self.major)),
    {
        match prefix_major(prefix) {
            Some(major) => major == self.major,
            None => false,
        }
    }

    /// `major.minor` as text (the `Display` form).
    pub fn to_string(&self) -> (s: String)
        ensures
            s@ == version_text(*self),
    {
        let mut s = String::new();
        push_decimal(&mut s, self.major as u64);
        push_char(&mut s, '.');
        push_decimal(&mut s, self.minor as u64);
        assert(s@ =~= version_text(*self));
        s
    }
}

/// The major version of a prefix key (`3.x` → 3). Shared by load-time key
/// validation and match-time evaluation so the two cannot disagree.
fn prefix_major(key: &str) -> (r: Option<u32>)
    ensures
        r == prefix_key_major(key@),
{
    let cs = chars_of(key);
    assert(cs@.subrange(0, cs.len() as int) =~= key@);
    let (first_end, rest) = split_dot(&cs, 0, cs.len());
    match rest {
        None => None,
        Some(a) => {
            if range_eq(&cs, a, cs.len(), "x") {
                proof {
                    reveal_strlit("x");
                    assert("x"@ =~= seq!['x']);
                }
                segment_at(&cs, 0, first_end)
            } else {
                proof {
                    reveal_strlit("x");
                    assert("x"@ =~= seq!['x']);
                }
                None
            }
        },
    }
}

/// Whether `key` is a well-formed prefix key (`N.x`), for load-time checks.
pub fn is_prefix_key(key: &str) -> (r: bool)
    ensures
        r == (prefix_key_major(key@) is Some),
{
    prefix_major(key).is_some()
}

/// Load-time key validation and match-time evaluation agree: a key that is
/// not a well-formed prefix key matches no version.
pub proof fn lemma_invalid_prefix_matches_nothing(key: Seq<char>, v: Version)
    requires
        !(prefix_key_major(key) is Some),
    ensures
        prefix_key_major(key) != Some(v.major),
{
}

/// Normalization: the first two segments of the raw text, both numeric.
///
/// `"3.5.0.128940"` → `3.5`; `"7"`, `"v7.1"`, `""` → `None`.
pub fn normalize(raw: &str) -> (r: Option<Version>)
    ensures
        r == normalized_version(raw@),
{
    let cs = chars_of(raw);
    let (lo, hi) = trim_bounds(&cs, 0, cs.len());
    assert(cs@.subrange(0, cs.len() as int) =~= raw@);
    let (first_end, rest) = split_dot(&cs, lo, hi);
    match rest {
        None => None,
        Some(a) => {
            let (second_end, _) = split_dot(&cs, a, hi);
            let major = segment_at(&cs, lo, first_end);
            let minor = segment_at(&cs, a, second_end);
            match (major, minor) {
                (Some(major), Some(minor)) => Some(Version { major, minor }),
                _ => None,
            }
        },
    }
}

/// Numeric comparison on `(major, minor)` (game versions are not text).
pub fn compare(a: Version, b: Version) -> (r: Ordering)
    ensures
        r == Ordering::Less <==> version_lt(a, b),
        r == Ordering::Equal <==> a == b,
        r == Ordering::Greater <==> version_lt(b, a),
{
    if a.major < b.major {
        Ordering::Less
    } else if a.major > b.major {
        Ordering::Greater
    } else if a.minor < b.minor {
        Ordering::Less
    } else if a.minor > b.minor {
        Ordering::Greater
    } else {
        Ordering::Equal
    }
}

/// An update exists only when both sides are known and local < remote;
/// an unknown side never reports an update.
pub fn is_update_available(local: Option<Version>, remote: Option<Version>) -> (r: bool)
    ensures
        r == match (local, remote) {
            (Some(l), Some(rv)) => version_lt(l, rv),
            _ => false,
        },
{
    match (local, remote) {
        (Some(l), Some(rv)) => l.major < rv.major || (l.major == rv.major && l.minor < rv.minor),
        _ => false,
    }
}

/// The text of a version reads back as the same version, both strictly
/// and through normalization.
pub proof fn lemma_version_text_roundtrip(v: Version)
    ensures
        parsed_version(version_text(v)) == Some(v),
        normalized_version(version_text(v)) == Some(v),
{
    let a = decimal_chars(v.major as nat);
    let b = decimal_chars(v.minor as nat);
    lemma_decimal_chars(v.major as nat);
    lemma_decimal_chars(v.minor as nat);
    let t = version_text(v);
    assert forall|i: int| 0 <= i < t.len() implies !is_space(#[trigger] t[i]) by {
        if i < a.len() {
            assert(is_digit(a[i]));
        } else if i > a.len() {
            assert(t[i] == b[i - a.len() - 1]);
            assert(is_digit(b[i - a.len() - 1]));
        }
    }
    lemma_no_space_trimmed(t);
    assert forall|j: int| 0 <= j < a.len() implies t[j] != '.' by {
        assert(t[j] == a[j]);
        assert(is_digit(a[j]));
    }
    lemma_first_index(t, '.', a.len() as int);
    assert(t.take(a.len() as int) =~= a);
    assert(t.skip(a.len() as int + 1) =~= b);
    assert forall|j: int| 0 <= j < b.len() implies b[j] != '.' by {
        assert(is_digit(b[j]));
    }
    lemma_first_index(b, '.', b.len() as int);
}

/// Text without white space at either end is its own trim.
pub proof fn lemma_no_space_trimmed(t: Seq<char>)
    requires
        forall|i: int| 0 <= i < t.len() ==> !is_space(#[trigger] t[i]),
    ensures
        trimmed(t) == t,
{
    if t.len() > 0 {
        assert(!is_space(t[0]));
        assert(!is_space(t.last()));
    }
}

} // verus!
