//! Character-level helpers shared by every parser of the library.
//!
//! Strings are reasoned about through their `Seq<char>` view; the helpers
//! here move between `&str`, `String` and `Vec<char>` and implement the
//! few scanning primitives (equality, trimming, digit runs) that the
//! parsers are built from.

use vstd::prelude::*;
use vstd::string::StrSliceExecFns;
use vstd::string::StringExecFns;

verus! {

/// `char::is_whitespace`: the Unicode `White_Space` property.
pub open spec fn is_space(c: char) -> bool {
    ||| ('\u{9}' <= c && c <= '\u{d}')
    ||| c == ' '
    ||| c == '\u{85}'
    ||| c == '\u{a0}'
    ||| c == '\u{1680}'
    ||| ('\u{2000}' <= c && c <= '\u{200a}')
    ||| c == '\u{2028}'
    ||| c == '\u{2029}'
    ||| c == '\u{202f}'
    ||| c == '\u{205f}'
    ||| c == '\u{3000}'
}

/// An ASCII decimal digit.
pub open spec fn is_digit(c: char) -> bool {
    '0' <= c && c <= '9'
}

pub open spec fn all_digits(s: Seq<char>) -> bool {
    forall|i: int| 0 <= i < s.len() ==> is_digit(#[trigger] s[i])
}

pub open spec fn digit_value(c: char) -> nat {
    (c as int - '0' as int) as nat
}

/// The number that a run of decimal digits denotes.
pub open spec fn decimal_value(s: Seq<char>) -> nat
    decreases s.len(),
{
    if s.len() == 0 {
        0
    } else {
        decimal_value(s.drop_last()) * 10 + digit_value(s.last())
    }
}

/// `s` with leading white space removed.
pub open spec fn trim_start(s: Seq<char>) -> Seq<char>
    decreases s.len(),
{
    if s.len() > 0 && is_space(s[0]) {
        trim_start(s.drop_first())
    } else {
        s
    }
}

/// `s` with trailing white space removed.
pub open spec fn trim_end(s: Seq<char>) -> Seq<char>
    decreases s.len(),
{
    if s.len() > 0 && is_space(s.last()) {
        trim_end(s.drop_last())
    } else {
        s
    }
}

/// `str::trim`.
pub open spec fn trimmed(s: Seq<char>) -> Seq<char> {
    trim_end(trim_start(s))
}

/// The text holds nothing but white space (`s.trim().is_empty()`).
pub open spec fn is_blank(s: Seq<char>) -> bool {
    forall|i: int| 0 <= i < s.len() ==> is_space(#[trigger] s[i])
}

/// Appends one character to a `String`.
#[verifier::external_body]
pub(crate) fn push_char(s: &mut String, c: char)
    ensures
        final(s)@ == old(s)@.push(c),
{
    s.push(c);
}

/// The characters of `s`, in order.
pub fn chars_of(s: &str) -> (v: Vec<char>)
    ensures
        v@ == s@,
{
    let n = s.unicode_len();
    let mut v: Vec<char> = Vec::new();
    let mut i: usize = 0;
    while i < n
        invariant
            n == s@.len(),
            i <= n,
            v@ == s@.take(i as int),
        decreases n - i,
    {
        v.push(s.get_char(i));
        i = i + 1;
        assert(v@ =~= s@.take(i as int));
    }
    assert(v@ =~= s@);
    v
}

/// A `String` holding the characters `cs[lo..hi]`.
pub fn string_of(cs: &Vec<char>, lo: usize, hi: usize) -> (r: String)
    requires
        lo <= hi <= cs.len(),
    ensures
        r@ == cs@.subrange(lo as int, hi as int),
{
    let mut r = String::new();
    let mut i = lo;
    while i < hi
        invariant
            lo <= i <= hi <= cs.len(),
            r@ == cs@.subrange(lo as int, i as int),
        decreases hi - i,
    {
        push_char(&mut r, cs[i]);
        i = i + 1;
        assert(r@ =~= cs@.subrange(lo as int, i as int));
    }
    r
}

/// Whether `a[lo..hi]` spells `b` exactly.
pub fn range_eq(a: &Vec<char>, lo: usize, hi: usize, b: &str) -> (r: bool)
    requires
        lo <= hi <= a.len(),
    ensures
        r == (a@.subrange(lo as int, hi as int) == b@),
{
    let n = b.unicode_len();
    if hi - lo != n {
        return false;
    }
    let mut i: usize = 0;
    while i < n
        invariant
            n == b@.len(),
            hi - lo == n,
            lo <= hi <= a.len(),
            i <= n,
            forall|j: int| 0 <= j < i ==> a@[lo + j] == b@[j],
        decreases n - i,
    {
        if a[lo + i] != b.get_char(i) {
            assert(a@.subrange(lo as int, hi as int)[i as int] != b@[i as int]);
            return false;
        }
        i = i + 1;
    }
    assert(a@.subrange(lo as int, hi as int) =~= b@);
    true
}

/// Whether two strings hold the same characters.
pub fn str_eq(a: &str, b: &str) -> (r: bool)
    ensures
        r == (a@ == b@),
{
    let cs = chars_of(a);
    let r = range_eq(&cs, 0, cs.len(), b);
    assert(cs@.subrange(0, cs.len() as int) =~= a@);
    r
}

/// A `String` holding the characters of `s`.
pub fn owned(s: &str) -> (r: String)
    ensures
        r@ == s@,
{
    String::from_str(s)
}

/// Appends `s` to `out`.
pub fn append_str(out: &mut String, s: &str)
    ensures
        final(out)@ == old(out)@ + s@,
{
    out.append(s);
}


/// The value of a non-empty run of decimal digits that fits a `u32`
/// (`str::parse::<u32>` after an all-digits check).
pub open spec fn segment(s: Seq<char>) -> Option<u32> {
    if s.len() > 0 && all_digits(s) && decimal_value(s) <= u32::MAX {
        Some(decimal_value(s) as u32)
    } else {
        None
    }
}

/// `s` up to (not including) its first `c`, or all of `s`.
pub open spec fn before(s: Seq<char>, c: char) -> Seq<char> {
    match s.index_of_first(c) {
        Some(k) => s.take(k),
        None => s,
    }
}

/// `s` after its first `c`; `None` when `s` holds no `c`.
pub open spec fn after(s: Seq<char>, c: char) -> Option<Seq<char>> {
    match s.index_of_first(c) {
        Some(k) => Some(s.skip(k + 1)),
        None => None,
    }
}

pub proof fn lemma_decimal_push(s: Seq<char>, c: char)
    ensures
        decimal_value(s.push(c)) == decimal_value(s) * 10 + digit_value(c),
{
    assert(s.push(c).drop_last() =~= s);
}

/// A scan that stops at index `k` of `s` because `s[k] == c` and no earlier
/// element is `c` has found the first `c`.
pub proof fn lemma_first_index<A>(s: Seq<A>, c: A, k: int)
    requires
        0 <= k <= s.len(),
        forall|j: int| 0 <= j < k ==> s[j] != c,
        k < s.len() ==> s[k] == c,
    ensures
        k < s.len() ==> s.index_of_first(c) == Some(k),
        k == s.len() ==> s.index_of_first(c) is None,
{
    s.index_of_first_ensures(c);
    match s.index_of_first(c) {
        Some(i) => {
            if k < s.len() {
                if i < k {
                } else if k < i {
                    assert(s[k] != c);
                }
            } else {
                assert(s[i] == c);
            }
        },
        None => {
            if k < s.len() {
                assert(s.contains(c)) by {
                    assert(s[k] == c);
                }
            }
        },
    }
}

/// Skipping leading white space one character at a time.
pub proof fn lemma_trim_start_skip(s: Seq<char>, i: int)
    requires
        0 <= i <= s.len(),
        forall|j: int| 0 <= j < i ==> is_space(#[trigger] s[j]),
    ensures
        trim_start(s) == trim_start(s.skip(i)),
    decreases i,
{
    if i > 0 {
        lemma_trim_start_skip(s.drop_first(), i - 1);
        assert(s.drop_first().skip(i - 1) =~= s.skip(i));
    } else {
        assert(s.skip(0) =~= s);
    }
}

/// Dropping trailing white space one character at a time.
pub proof fn lemma_trim_end_take(s: Seq<char>, i: int)
    requires
        0 <= i <= s.len(),
        forall|j: int| i <= j < s.len() ==> is_space(#[trigger] s[j]),
    ensures
        trim_end(s) == trim_end(s.take(i)),
    decreases s.len() - i,
{
    if i < s.len() {
        lemma_trim_end_take(s.drop_last(), i);
        assert(s.drop_last().take(i) =~= s.take(i));
    } else {
        assert(s.take(i) =~= s);
    }
}

/// The first index of `cs[lo..hi]` (counted from `lo`) that holds `c`,
/// or `hi` when there is none.
pub fn find_char(cs: &Vec<char>, lo: usize, hi: usize, c: char) -> (k: usize)
    requires
        lo <= hi <= cs.len(),
    ensures
        lo <= k <= hi,
        k < hi ==> cs@.subrange(lo as int, hi as int).index_of_first(c) == Some(k - lo),
        k == hi ==> cs@.subrange(lo as int, hi as int).index_of_first(c) is None,
{
    let mut k = lo;
    while k < hi
        invariant
            lo <= k <= hi <= cs.len(),
            forall|j: int| lo <= j < k ==> cs@[j] != c,
        ensures
            lo <= k <= hi,
            forall|j: int| lo <= j < k ==> cs@[j] != c,
            k < hi ==> cs@[k as int] == c,
        decreases hi - k,
    {
        if cs[k] == c {
            break;
        }
        k = k + 1;
    }
    proof {
        let s = cs@.subrange(lo as int, hi as int);
        assert forall|j: int| 0 <= j < k - lo implies s[j] != c by {
            assert(s[j] == cs@[lo + j]);
        }
        if k < hi {
            assert(s[k - lo] == cs@[k as int]);
        }
        lemma_first_index(s, c, k - lo);
    }
    k
}

/// The bounds of `cs[lo..hi]` with white space trimmed off both ends.
pub fn trim_bounds(cs: &Vec<char>, lo: usize, hi: usize) -> (r: (usize, usize))
    requires
        lo <= hi <= cs.len(),
    ensures
        lo <= r.0 <= r.1 <= hi,
        cs@.subrange(r.0 as int, r.1 as int) == trimmed(cs@.subrange(lo as int, hi as int)),
{
    let ghost s = cs@.subrange(lo as int, hi as int);
    let mut a = lo;
    while a < hi && is_space_char(cs[a])
        invariant
            lo <= a <= hi <= cs.len(),
            forall|j: int| lo <= j < a ==> is_space(#[trigger] cs@[j]),
        decreases hi - a,
    {
        a = a + 1;
    }
    let mut b = hi;
    while b > a && is_space_char(cs[b - 1])
        invariant
            lo <= a <= b <= hi <= cs.len(),
            forall|j: int| b <= j < hi ==> is_space(#[trigger] cs@[j]),
        decreases b - a,
    {
        b = b - 1;
    }
    proof {
        assert forall|j: int| 0 <= j < a - lo implies is_space(#[trigger] s[j]) by {
            assert(s[j] == cs@[lo + j]);
        }
        lemma_trim_start_skip(s, a - lo);
        let t = s.skip(a - lo);
        assert(t =~= cs@.subrange(a as int, hi as int));
        if a < hi {
            assert(!is_space(t[0]));
        }
        assert(trim_start(t) == t);
        assert forall|j: int| b - a <= j < t.len() implies is_space(#[trigger] t[j]) by {
            assert(t[j] == cs@[a + j]);
        }
        lemma_trim_end_take(t, b - a);
        let u = t.take(b - a);
        assert(u =~= cs@.subrange(a as int, b as int));
        if b > a {
            assert(!is_space(u.last()));
        }
        assert(trim_end(u) == u);
    }
    (a, b)
}

/// `char::is_whitespace`.
pub fn is_space_char(c: char) -> (r: bool)
    ensures
        r == is_space(c),
{
    ('\u{9}' <= c && c <= '\u{d}') || c == ' ' || c == '\u{85}' || c == '\u{a0}'
        || c == '\u{1680}' || ('\u{2000}' <= c && c <= '\u{200a}') || c == '\u{2028}'
        || c == '\u{2029}' || c == '\u{202f}' || c == '\u{205f}' || c == '\u{3000}'
}

/// Whether the text is empty or white space only.
pub fn is_blank_str(s: &str) -> (r: bool)
    ensures
        r == is_blank(s@),
{
    let cs = chars_of(s);
    let mut i: usize = 0;
    while i < cs.len()
        invariant
            cs@ == s@,
            i <= cs.len(),
            forall|j: int| 0 <= j < i ==> is_space(#[trigger] cs@[j]),
        decreases cs.len() - i,
    {
        if !is_space_char(cs[i]) {
            return false;
        }
        i = i + 1;
    }
    true
}

/// The `u32` that `cs[lo..hi]` spells, when it is a non-empty run of
/// digits whose value fits.
pub fn parse_u32(cs: &Vec<char>, lo: usize, hi: usize) -> (r: Option<u32>)
    requires
        lo <= hi <= cs.len(),
    ensures
        r == segment(cs@.subrange(lo as int, hi as int)),
{
    let ghost s = cs@.subrange(lo as int, hi as int);
    if lo == hi {
        return None;
    }
    let mut acc: u64 = 0;
    let mut overflow = false;
    let mut i = lo;
    while i < hi
        invariant
            lo <= i <= hi <= cs.len(),
            s == cs@.subrange(lo as int, hi as int),
            all_digits(cs@.subrange(lo as int, i as int)),
            !overflow ==> acc == decimal_value(cs@.subrange(lo as int, i as int)),
            !overflow ==> acc <= u32::MAX,
            overflow ==> decimal_value(cs@.subrange(lo as int, i as int)) > u32::MAX,
        decreases hi - i,
    {
        let c = cs[i];
        if !('0' <= c && c <= '9') {
            assert(!all_digits(s)) by {
                assert(s[i - lo] == c);
            }
            return None;
        }
        let d = (c as u32 - '0' as u32) as u64;
        proof {
            let p = cs@.subrange(lo as int, i as int);
            assert(cs@.subrange(lo as int, i + 1) =~= p.push(c));
            lemma_decimal_push(p, c);
        }
        if !overflow {
            acc = acc * 10 + d;
            if acc > 0xffff_ffff {
                overflow = true;
            }
        }
        i = i + 1;
    }
    assert(cs@.subrange(lo as int, i as int) == s);
    if overflow {
        None
    } else {
        Some(acc as u32)
    }
}


/// The ASCII digit for `d < 10`.
pub open spec fn digit_char(d: nat) -> char {
    ('0' as int + d) as char
}

/// The decimal rendering of `n` (no sign, no leading zeros).
pub open spec fn decimal_chars(n: nat) -> Seq<char>
    decreases n,
{
    if n < 10 {
        seq![digit_char(n)]
    } else {
        decimal_chars(n / 10).push(digit_char(n % 10))
    }
}

pub proof fn lemma_digit_char(d: nat)
    requires
        d < 10,
    ensures
        is_digit(digit_char(d)),
        digit_value(digit_char(d)) == d,
{
    assert(('0' as int + d) as char as int == '0' as int + d);
}

/// A rendered number reads back as itself.
pub proof fn lemma_decimal_chars(n: nat)
    ensures
        decimal_chars(n).len() > 0,
        all_digits(decimal_chars(n)),
        decimal_value(decimal_chars(n)) == n,
    decreases n,
{
    lemma_digit_char((n % 10) as nat);
    if n < 10 {
        let s = decimal_chars(n);
        assert(s.drop_last() =~= Seq::<char>::empty());
        assert(decimal_value(s) == decimal_value(s.drop_last()) * 10 + digit_value(s.last()));
    } else {
        lemma_decimal_chars(n / 10);
        let p = decimal_chars(n / 10);
        lemma_decimal_push(p, digit_char(n % 10));
        let s = decimal_chars(n);
        assert forall|i: int| 0 <= i < s.len() implies is_digit(#[trigger] s[i]) by {
            if i < p.len() {
                assert(s[i] == p[i]);
            }
        }
    }
}

/// Appends the decimal rendering of `n` to `out`.
pub fn push_decimal(out: &mut String, n: u64)
    ensures
        final(out)@ == old(out)@ + decimal_chars(n as nat),
    decreases n,
{
    if n >= 10 {
        push_decimal(out, n / 10);
    }
    let d = (n % 10) as u8;
    let c = (48u8 + d) as char;
    assert(c == digit_char((n % 10) as nat));
    push_char(out, c);
    assert(out@ =~= old(out)@ + decimal_chars(n as nat));
}


/// A non-empty run of ASCII digits.
pub open spec fn digit_run(s: Seq<char>) -> bool {
    s.len() > 0 && all_digits(s)
}

/// Whether `cs[lo..hi]` is a non-empty run of ASCII digits.
pub fn digits_in(cs: &Vec<char>, lo: usize, hi: usize) -> (r: bool)
    requires
        lo <= hi <= cs.len(),
    ensures
        r == digit_run(cs@.subrange(lo as int, hi as int)),
{
    if lo == hi {
        return false;
    }
    let mut i = lo;
    while i < hi
        invariant
            lo <= i <= hi <= cs.len(),
            forall|j: int| lo <= j < i ==> is_digit(#[trigger] cs@[j]),
        decreases hi - i,
    {
        if !(cs[i] >= '0' && cs[i] <= '9') {
            assert(!is_digit(cs@.subrange(lo as int, hi as int)[i - lo]));
            return false;
        }
        i = i + 1;
    }
    assert forall|j: int| 0 <= j < hi - lo implies is_digit(
        #[trigger] cs@.subrange(lo as int, hi as int)[j],
    ) by {
        assert(cs@.subrange(lo as int, hi as int)[j] == cs@[lo + j]);
    }
    true
}

/// What std's `Debug` shows for a string (`format!("{:?}", s)`): the text
/// between double quotes, with quotes, backslashes and unprintable
/// characters escaped.  Error messages show values this way.
pub uninterp spec fn debug_form(s: Seq<char>) -> Seq<char>;

/// `format!("{:?}", s)` on a string.
///
/// Trusted: the result is std's `Debug` rendering of `s`, a function of `s`
/// alone, named by [`debug_form`].
#[verifier::external_body]
pub(crate) fn debug_text(s: &str) -> (r: String)
    ensures
        r@ == debug_form(s@),
{
    format!("{s:?}")
}

/// What `str::to_lowercase` makes of a text (Unicode lower-casing).
pub uninterp spec fn lowercase_form(s: Seq<char>) -> Seq<char>;

/// `s.to_lowercase()`.
///
/// Trusted: the result is std's Unicode lower-casing of `s`, a function of
/// `s` alone, named by [`lowercase_form`].
#[verifier::external_body]
pub(crate) fn lowercased(s: &str) -> (r: String)
    ensures
        r@ == lowercase_form(s@),
{
    s.to_lowercase()
}

/// Appends `s` as `Debug` shows it.
pub fn push_quoted(out: &mut String, s: &str)
    ensures
        final(out)@ == old(out)@ + debug_form(s@),
{
    let shown = debug_text(s);
    append_str(out, shown.as_str());
}

/// The decimal rendering of a signed integer.
pub open spec fn int_text(n: int) -> Seq<char> {
    if n < 0 {
        seq!['-'] + decimal_chars((-n) as nat)
    } else {
        decimal_chars(n as nat)
    }
}

/// Appends the decimal rendering of a wide unsigned integer.
pub fn push_wide_decimal(out: &mut String, n: u128)
    ensures
        final(out)@ == old(out)@ + decimal_chars(n as nat),
    decreases n,
{
    if n >= 10 {
        push_wide_decimal(out, n / 10);
    }
    let d = (n % 10) as u8;
    let c = (48u8 + d) as char;
    assert(c == digit_char((n % 10) as nat));
    push_char(out, c);
    assert(out@ =~= old(out)@ + decimal_chars(n as nat));
}

/// Appends the decimal rendering of a signed integer.
pub fn push_int(out: &mut String, n: i128)
    ensures
        final(out)@ == old(out)@ + int_text(n as int),
{
    if n < 0 {
        push_char(out, '-');
        let magnitude: u128 = if n == i128::MIN {
            170141183460469231731687303715884105728u128
        } else {
            (0i128 - n) as u128
        };
        push_wide_decimal(out, magnitude);
        assert(out@ =~= old(out)@ + int_text(n as int));
    } else {
        push_wide_decimal(out, n as u128);
    }
}

/// A copy of an optional text.
pub fn clone_opt(o: &Option<String>) -> (r: Option<String>)
    ensures
        r == *o,
{
    match o {
        Some(s) => Some(s.clone()),
        None => None,
    }
}

/// A copy of a list of texts.
pub fn clone_strings(v: &Vec<String>) -> (r: Vec<String>)
    ensures
        r@ == v@,
{
    let mut r: Vec<String> = Vec::new();
    let mut i: usize = 0;
    while i < v.len()
        invariant
            i <= v.len(),
            r@ == v@.take(i as int),
        decreases v.len() - i,
    {
        r.push(v[i].clone());
        i = i + 1;
        assert(r@ =~= v@.take(i as int));
    }
    assert(r@ =~= v@);
    r
}

} // verus!
