//! The vocabulary of the unified log, calendar dates, and log file names.
//!
//! Log files are named `orbis.YYYY-MM-DD.log`; cleanup only ever touches
//! names of exactly that form.  Writing lines, time zones and the file
//! system are handled outside the library.

use vstd::prelude::*;
use vstd::string::StrSliceExecFns;

use crate::text::{
    all_digits, append_str, chars_of, decimal_chars, decimal_value, digit_char, digit_value,
    is_digit, lemma_decimal_chars, lemma_decimal_push, lemma_digit_char, owned, parse_u32,
    push_char, push_decimal, range_eq, segment, str_eq,
};

verus! {

/// Default log retention, in days.
pub const DEFAULT_RETENTION_DAYS: u32 = 14;

pub const LOG_FILE_PREFIX: &'static str = "orbis.";

pub const LOG_FILE_SUFFIX: &'static str = ".log";

/// The module a log line comes from.
#[derive(Debug, Clone, Copy, PartialEq, Eq, Structural)]
pub enum LogSource {
    Game,
    Tool,
    Launcher,
    Backup,
    Update,
}

impl LogSource {
    pub const ALL: [LogSource; 5] = [
        LogSource::Game,
        LogSource::Tool,
        LogSource::Launcher,
        LogSource::Backup,
        LogSource::Update,
    ];

    pub open spec fn slug_text(self) -> Seq<char> {
        match self {
            LogSource::Game => "game"@,
            LogSource::Tool => "tool"@,
            LogSource::Launcher => "launcher"@,
            LogSource::Backup => "backup"@,
            LogSource::Update => "update"@,
        }
    }

    pub open spec fn parse_text(s: Seq<char>) -> Option<LogSource> {
        if s == "game"@ {
            Some(LogSource::Game)
        } else if s == "tool"@ {
            Some(LogSource::Tool)
        } else if s == "launcher"@ {
            Some(LogSource::Launcher)
        } else if s == "backup"@ {
            Some(LogSource::Backup)
        } else if s == "update"@ {
            Some(LogSource::Update)
        } else {
            None
        }
    }

    pub fn slug(self) -> (r: &'static str)
        ensures
            r@ == self.slug_text(),
    {
        match self {
            LogSource::Game => "game",
            LogSource::Tool => "tool",
            LogSource::Launcher => "launcher",
            LogSource::Backup => "backup",
            LogSource::Update => "update",
        }
    }

    pub fn from_slug(slug: &str) -> (r: Option<LogSource>)
        ensures
            r == LogSource::parse_text(slug@),
    {
        if str_eq(slug, "game") {
            Some(LogSource::Game)
        } else if str_eq(slug, "tool") {
            Some(LogSource::Tool)
        } else if str_eq(slug, "launcher") {
            Some(LogSource::Launcher)
        } else if str_eq(slug, "backup") {
            Some(LogSource::Backup)
        } else if str_eq(slug, "update") {
            Some(LogSource::Update)
        } else {
            None
        }
    }
}

/// Reading a source's literal gives it back.
pub proof fn lemma_log_source_roundtrip(s: LogSource)
    ensures
        LogSource::parse_text(s.slug_text()) == Some(s),
{
    reveal_strlit("game");
    reveal_strlit("tool");
    reveal_strlit("launcher");
    reveal_strlit("backup");
    reveal_strlit("update");
    assert("game"@.len() == 4 && "tool"@.len() == 4 && "launcher"@.len() == 8);
    assert("backup"@.len() == 6 && "update"@.len() == 6);
    assert("game"@[0] != "tool"@[0] && "backup"@[0] != "update"@[0]);
}

/// The kind of action a log line records.
#[derive(Debug, Clone, Copy, PartialEq, Eq, Structural)]
pub enum LogCategory {
    Detect,
    Launch,
    Backup,
    Modify,
    Verify,
    Rollback,
    Version,
    Auth,
}

impl LogCategory {
    pub const ALL: [LogCategory; 8] = [
        LogCategory::Detect,
        LogCategory::Launch,
        LogCategory::Backup,
        LogCategory::Modify,
        LogCategory::Verify,
        LogCategory::Rollback,
        LogCategory::Version,
        LogCategory::Auth,
    ];

    pub open spec fn slug_text(self) -> Seq<char> {
        match self {
            LogCategory::Detect => "detect"@,
            LogCategory::Launch => "launch"@,
            LogCategory::Backup => "backup"@,
            LogCategory::Modify => "modify"@,
            LogCategory::Verify => "verify"@,
            LogCategory::Rollback => "rollback"@,
            LogCategory::Version => "version"@,
            LogCategory::Auth => "auth"@,
        }
    }

    pub open spec fn parse_text(s: Seq<char>) -> Option<LogCategory> {
        if s == "detect"@ {
            Some(LogCategory::Detect)
        } else if s == "launch"@ {
            Some(LogCategory::Launch)
        } else if s == "backup"@ {
            Some(LogCategory::Backup)
        } else if s == "modify"@ {
            Some(LogCategory::Modify)
        } else if s == "verify"@ {
            Some(LogCategory::Verify)
        } else if s == "rollback"@ {
            Some(LogCategory::Rollback)
        } else if s == "version"@ {
            Some(LogCategory::Version)
        } else if s == "auth"@ {
            Some(LogCategory::Auth)
        } else {
            None
        }
    }

    pub fn slug(self) -> (r: &'static str)
        ensures
            r@ == self.slug_text(),
    {
        match self {
            LogCategory::Detect => "detect",
            LogCategory::Launch => "launch",
            LogCategory::Backup => "backup",
            LogCategory::Modify => "modify",
            LogCategory::Verify => "verify",
            LogCategory::Rollback => "rollback",
            LogCategory::Version => "version",
            LogCategory::Auth => "auth",
        }
    }

    pub fn from_slug(slug: &str) -> (r: Option<LogCategory>)
        ensures
            r == LogCategory::parse_text(slug@),
    {
        if str_eq(slug, "detect") {
            Some(LogCategory::Detect)
        } else if str_eq(slug, "launch") {
            Some(LogCategory::Launch)
        } else if str_eq(slug, "backup") {
            Some(LogCategory::Backup)
        } else if str_eq(slug, "modify") {
            Some(LogCategory::Modify)
        } else if str_eq(slug, "verify") {
            Some(LogCategory::Verify)
        } else if str_eq(slug, "rollback") {
            Some(LogCategory::Rollback)
        } else if str_eq(slug, "version") {
            Some(LogCategory::Version)
        } else if str_eq(slug, "auth") {
            Some(LogCategory::Auth)
        } else {
            None
        }
    }
}

/// Reading a category's literal gives it back.
pub proof fn lemma_log_category_roundtrip(c: LogCategory)
    ensures
        LogCategory::parse_text(c.slug_text()) == Some(c),
{
    reveal_strlit("detect");
    reveal_strlit("launch");
    reveal_strlit("backup");
    reveal_strlit("modify");
    reveal_strlit("verify");
    reveal_strlit("rollback");
    reveal_strlit("version");
    reveal_strlit("auth");
    assert("detect"@[0] != "launch"@[0] && "detect"@[0] != "backup"@[0]);
    assert("detect"@[0] != "modify"@[0] && "detect"@[0] != "verify"@[0]);
    assert("launch"@[0] != "backup"@[0] && "launch"@[0] != "modify"@[0]);
    assert("launch"@[0] != "verify"@[0] && "backup"@[0] != "modify"@[0]);
    assert("backup"@[0] != "verify"@[0] && "modify"@[0] != "verify"@[0]);
    assert("rollback"@.len() == 8 && "version"@.len() == 7 && "auth"@.len() == 4);
    assert("detect"@.len() == 6 && "launch"@.len() == 6 && "backup"@.len() == 6);
    assert("modify"@.len() == 6 && "verify"@.len() == 6);
}

/// The three log levels.
#[derive(Debug, Clone, Copy, PartialEq, Eq, Structural)]
pub enum LogLevel {
    Info,
    Warn,
    Error,
}

/// The five levels of the tracing framework.
#[derive(Debug, Clone, Copy, PartialEq, Eq, Structural)]
pub enum TraceLevel {
    Trace,
    Debug,
    Info,
    Warn,
    Error,
}

impl LogLevel {
    pub open spec fn slug_text(self) -> Seq<char> {
        match self {
            LogLevel::Info => "INFO"@,
            LogLevel::Warn => "WARN"@,
            LogLevel::Error => "ERROR"@,
        }
    }

    /// The upper-case literal.
    pub fn slug(self) -> (r: &'static str)
        ensures
            r@ == self.slug_text(),
    {
        match self {
            LogLevel::Info => "INFO",
            LogLevel::Warn => "WARN",
            LogLevel::Error => "ERROR",
        }
    }

    /// Five tracing levels collapse to three: trace and debug count as info.
    pub fn from_tracing(level: TraceLevel) -> (r: LogLevel)
        ensures
            r == (match level {
                TraceLevel::Error => LogLevel::Error,
                TraceLevel::Warn => LogLevel::Warn,
                _ => LogLevel::Info,
            }),
    {
        match level {
            TraceLevel::Error => LogLevel::Error,
            TraceLevel::Warn => LogLevel::Warn,
            _ => LogLevel::Info,
        }
    }
}

// ── Calendar dates ────────────────────────────────────────────────────

/// A date of the proleptic Gregorian calendar.
#[derive(Debug, Clone, Copy, PartialEq, Eq, Structural, PartialOrd, Ord)]
pub struct CivilDate {
    pub year: i64,
    pub month: u32,
    pub day: u32,
}

pub open spec fn leap(year: int) -> bool {
    (year % 4 == 0 && year % 100 != 0) || year % 400 == 0
}

pub open spec fn month_len(year: int, month: int) -> int {
    if month == 1 || month == 3 || month == 5 || month == 7 || month == 8 || month == 10 || month
        == 12 {
        31
    } else if month == 4 || month == 6 || month == 9 || month == 11 {
        30
    } else if month == 2 {
        if leap(year) {
            29
        } else {
            28
        }
    } else {
        0
    }
}

/// The date exists.
pub open spec fn valid_date(d: CivilDate) -> bool {
    1 <= d.month <= 12 && 1 <= d.day <= month_len(d.year as int, d.month as int)
}

/// Floor division.
pub open spec fn floor_div(a: int, b: int) -> int {
    a / b
}

/// Days since 1970-01-01: the count of the March-based years and days.
pub open spec fn days_from_civil(year: int, month: int, day: int) -> int {
    let y = if month <= 2 {
        year - 1
    } else {
        year
    };
    let era = y / 400;
    let yoe = y - era * 400;
    let mp = if month > 2 {
        month - 3
    } else {
        month + 9
    };
    let doy = (153 * mp + 2) / 5 + day - 1;
    let doe = yoe * 365 + yoe / 4 - yoe / 100 + doy;
    era * 146097 + doe - 719468
}

pub open spec fn day_number(d: CivilDate) -> int {
    days_from_civil(d.year as int, d.month as int, d.day as int)
}

/// Whether `year` is a leap year.
pub fn is_leap_year(year: i64) -> (r: bool)
    ensures
        r == leap(year as int),
{
    (year % 4 == 0 && year % 100 != 0) || year % 400 == 0
}

/// The length of a month; 0 for a month that does not exist.
pub fn days_in_month(year: i64, month: u32) -> (r: u32)
    ensures
        r == month_len(year as int, month as int),
{
    if month == 1 || month == 3 || month == 5 || month == 7 || month == 8 || month == 10 || month
        == 12 {
        31
    } else if month == 4 || month == 6 || month == 9 || month == 11 {
        30
    } else if month == 2 {
        if is_leap_year(year) {
            29
        } else {
            28
        }
    } else {
        0
    }
}

pub open spec fn start_of(yoe: int) -> int {
    365 * yoe + yoe / 4 - yoe / 100
}

pub open spec fn year_of(doe: int) -> int {
    (doe - doe / 1460 + doe / 36524 - doe / 146096) / 365
}

pub open spec fn long_year(yoe: int) -> bool {
    (yoe + 1) % 4 == 0 && ((yoe + 1) % 100 != 0 || yoe == 399)
}

pub open spec fn march_month_len(mp: int, long: bool) -> int {
    if mp == 11 {
        if long {
            29
        } else {
            28
        }
    } else if mp == 1 || mp == 3 || mp == 6 || mp == 8 {
        30
    } else {
        31
    }
}

proof fn lemma_year_bounds(doe: int)
    requires
        0 <= doe <= 146096,
    ensures
        0 <= year_of(doe) <= 399,
        0 <= doe - start_of(year_of(doe)) <= 365,
        doe - start_of(year_of(doe)) == 365 ==> long_year(year_of(doe)),
{
}

proof fn lemma_start_step(a: int)
    requires
        0 <= a < 399,
    ensures
        start_of(a + 1) == start_of(a) + 365 + (if long_year(a) {
            1int
        } else {
            0int
        }),
{
}

proof fn lemma_start_mono(a: int, b: int)
    requires
        0 <= a <= b,
    ensures
        start_of(a) <= start_of(b),
{
}

proof fn lemma_year_recovers(yoe: int, doy: int)
    requires
        0 <= yoe <= 399,
        0 <= doy <= 365,
        doy == 365 ==> long_year(yoe),
    ensures
        0 <= start_of(yoe) + doy <= 146096,
        year_of(start_of(yoe) + doy) == yoe,
{
    let doe = start_of(yoe) + doy;
    lemma_year_bounds(doe);
    let y2 = year_of(doe);
    if y2 < yoe {
        lemma_start_step(y2);
        lemma_start_mono(y2 + 1, yoe);
    }
    if y2 > yoe {
        lemma_start_step(yoe);
        lemma_start_mono(yoe + 1, y2);
    }
}

proof fn lemma_month_of_doy(doy: int, long: bool)
    requires
        0 <= doy <= 365,
        doy == 365 ==> long,
    ensures
        0 <= (5 * doy + 2) / 153 <= 11,
        1 <= doy - (153 * ((5 * doy + 2) / 153) + 2) / 5 + 1,
        doy - (153 * ((5 * doy + 2) / 153) + 2) / 5 + 1 <= march_month_len((5 * doy + 2) / 153, long),
{
}

proof fn lemma_month_recovers(mp: int, d: int, long: bool)
    requires
        0 <= mp <= 11,
        1 <= d <= march_month_len(mp, long),
    ensures
        0 <= (153 * mp + 2) / 5 + d - 1 <= 365,
        (153 * mp + 2) / 5 + d - 1 == 365 ==> long,
        (5 * ((153 * mp + 2) / 5 + d - 1) + 2) / 153 == mp,
{
}

/// The calendar leap rule seen from a March-based year of an era.
proof fn lemma_long_year_is_leap(yoe: int, era: int)
    requires
        0 <= yoe <= 399,
    ensures
        long_year(yoe) == leap(yoe + era * 400 + 1),
{
    let t = yoe + 1;
    vstd::arithmetic::div_mod::lemma_mod_multiples_vanish(100 * era, t, 4);
    vstd::arithmetic::div_mod::lemma_mod_multiples_vanish(4 * era, t, 100);
    vstd::arithmetic::div_mod::lemma_mod_multiples_vanish(era, t, 400);
    assert(4 * (100 * era) + t == yoe + era * 400 + 1);
    assert(100 * (4 * era) + t == yoe + era * 400 + 1);
    assert(400 * era + t == yoe + era * 400 + 1);
}

/// The date that lies `days` days after 1970-01-01.
pub open spec fn civil_from(days: int) -> CivilDate {
    let z = days + 719468;
    let era = z / 146097;
    let doe = z - era * 146097;
    let yoe = year_of(doe);
    let y = yoe + era * 400;
    let doy = doe - start_of(yoe);
    let mp = (5 * doy + 2) / 153;
    let day = doy - (153 * mp + 2) / 5 + 1;
    let month = if mp < 10 {
        mp + 3
    } else {
        mp - 9
    };
    let year = if month <= 2 {
        y + 1
    } else {
        y
    };
    CivilDate { year: year as i64, month: month as u32, day: day as u32 }
}

/// Every day count names a valid date, and counting that date's days gives
/// the count back.
pub proof fn lemma_civil_from_days(days: int)
    requires
        i64::MIN <= days <= i64::MAX,
    ensures
        valid_date(civil_from(days)),
        day_number(civil_from(days)) == days,
{
    let z = days + 719468;
    let era = z / 146097;
    let doe = z - era * 146097;
    assert(0 <= doe < 146097);
    lemma_year_bounds(doe);
    let yoe = year_of(doe);
    let y = yoe + era * 400;
    let doy = doe - start_of(yoe);
    lemma_month_of_doy(doy, long_year(yoe));
    let mp = (5 * doy + 2) / 153;
    let day = doy - (153 * mp + 2) / 5 + 1;
    let month = if mp < 10 {
        mp + 3
    } else {
        mp - 9
    };
    let year = if month <= 2 {
        y + 1
    } else {
        y
    };
    assert(-25000000000000000 <= era <= 25000000000000000);
    assert(i64::MIN <= year <= i64::MAX);
    lemma_long_year_is_leap(yoe, era);
    let d = civil_from(days);
    assert(d.year == year && d.month == month && d.day == day);
    // Counting back: the March-based year is `y`, whose era and year of era are `era` and `yoe`.
    let y2 = if month <= 2 {
        year - 1
    } else {
        year
    };
    assert(y2 == y);
    assert(y / 400 == era);
    let mp2 = if month > 2 {
        month - 3
    } else {
        month + 9
    };
    assert(mp2 == mp);
    assert((153 * mp + 2) / 5 + day - 1 == doy);
}

/// Two valid dates with the same day count are the same date.
pub proof fn lemma_day_number_injective(a: CivilDate, b: CivilDate)
    requires
        valid_date(a),
        valid_date(b),
        day_number(a) == day_number(b),
    ensures
        a == b,
{
    lemma_civil_inverse(a);
    lemma_civil_inverse(b);
}

/// Counting a valid date's days and reading the count back gives the date.
pub proof fn lemma_civil_inverse(d: CivilDate)
    requires
        valid_date(d),
    ensures
        civil_from(day_number(d)) == d,
{
    let year = d.year as int;
    let month = d.month as int;
    let day = d.day as int;
    let y = if month <= 2 {
        year - 1
    } else {
        year
    };
    let era = y / 400;
    let yoe = y - era * 400;
    let mp = if month > 2 {
        month - 3
    } else {
        month + 9
    };
    assert(0 <= yoe <= 399);
    lemma_long_year_is_leap(yoe, era);
    assert(day <= march_month_len(mp, long_year(yoe)));
    lemma_month_recovers(mp, day, long_year(yoe));
    let doy = (153 * mp + 2) / 5 + day - 1;
    lemma_year_recovers(yoe, doy);
    let doe = start_of(yoe) + doy;
    let z = era * 146097 + doe;
    assert(day_number(d) + 719468 == z);
    assert(z / 146097 == era);
    assert(z - (z / 146097) * 146097 == doe);
    assert((5 * doy + 2) / 153 == mp);
    assert(doy - (153 * mp + 2) / 5 + 1 == day);
}

impl CivilDate {
    /// The date `days` days after 1970-01-01.
    pub fn from_unix_days(days: i64) -> (r: CivilDate)
        ensures
            r == civil_from(days as int),
            valid_date(r),
            day_number(r) == days,
    {
        proof {
            lemma_civil_from_days(days as int);
        }
        let z: i128 = days as i128 + 719468;
        let era: i128 = if z >= 0 {
            z / 146097
        } else {
            0 - (146096 - z) / 146097
        };
        assert(era == z as int / 146097);
        let doe: i128 = z - era * 146097;
        let yoe: i128 = (doe - doe / 1460 + doe / 36524 - doe / 146096) / 365;
        proof {
            lemma_year_bounds(doe as int);
        }
        let y: i128 = yoe + era * 400;
        let doy: i128 = doe - (365 * yoe + yoe / 4 - yoe / 100);
        let mp: i128 = (5 * doy + 2) / 153;
        let day: i128 = doy - (153 * mp + 2) / 5 + 1;
        let month: i128 = if mp < 10 {
            mp + 3
        } else {
            mp - 9
        };
        let year: i128 = if month <= 2 {
            y + 1
        } else {
            y
        };
        CivilDate { year: year as i64, month: month as u32, day: day as u32 }
    }

    /// Days since 1970-01-01.
    pub fn to_unix_days(self) -> (r: i64)
        requires
            i64::MIN <= day_number(self) <= i64::MAX,
        ensures
            r == day_number(self),
    {
        let y: i128 = if self.month <= 2 {
            self.year as i128 - 1
        } else {
            self.year as i128
        };
        let era: i128 = if y >= 0 {
            y / 400
        } else {
            0 - (399 - y) / 400
        };
        assert(era == y as int / 400);
        let yoe: i128 = y - era * 400;
        let m: i128 = self.month as i128;
        let d: i128 = self.day as i128;
        let mp: i128 = if m > 2 {
            m - 3
        } else {
            m + 9
        };
        let doy: i128 = (153 * mp + 2) / 5 + d - 1;
        let doe: i128 = yoe * 365 + yoe / 4 - yoe / 100 + doy;
        (era * 146097 + doe - 719468) as i64
    }

    /// The date `delta` days later (earlier for a negative `delta`).
    pub fn add_days(self, delta: i64) -> (r: CivilDate)
        requires
            i64::MIN <= day_number(self) + delta <= i64::MAX,
            i64::MIN <= day_number(self) <= i64::MAX,
        ensures
            valid_date(r),
            day_number(r) == day_number(self) + delta,
    {
        CivilDate::from_unix_days(self.to_unix_days() + delta)
    }

    /// `YYYY-MM-DD`.
    pub fn to_iso(self) -> (r: String)
        ensures
            r@ == iso_text(self),
    {
        let mut out = String::new();
        if self.year < 0 {
            push_char(&mut out, '-');
            let magnitude: u64 = (0i128 - self.year as i128) as u64;
            push_padded(&mut out, magnitude, 3);
        } else {
            push_padded(&mut out, self.year as u64, 4);
        }
        push_char(&mut out, '-');
        push_padded(&mut out, self.month as u64, 2);
        push_char(&mut out, '-');
        push_padded(&mut out, self.day as u64, 2);
        assert(out@ =~= iso_text(self));
        out
    }

    /// Strict `YYYY-MM-DD`: ten characters, digits and two dashes, and a
    /// date that exists.
    pub fn parse_iso(text: &str) -> (r: Option<CivilDate>)
        ensures
            r == iso_parsed(text@),
    {
        let cs = chars_of(text);
        if cs.len() != 10 || cs[4] != '-' || cs[7] != '-' {
            return None;
        }
        let year = match parse_u32(&cs, 0, 4) {
            Some(v) => v,
            None => return None,
        };
        let month = match parse_u32(&cs, 5, 7) {
            Some(v) => v,
            None => return None,
        };
        let day = match parse_u32(&cs, 8, 10) {
            Some(v) => v,
            None => return None,
        };
        if month < 1 || month > 12 || day < 1 || day > days_in_month(year as i64, month) {
            return None;
        }
        Some(CivilDate { year: year as i64, month, day })
    }
}

/// `digits` with zeros in front up to `width` characters.
pub open spec fn zero_pad(digits: Seq<char>, width: nat) -> Seq<char> {
    if digits.len() >= width {
        digits
    } else {
        Seq::new((width - digits.len()) as nat, |i: int| '0') + digits
    }
}

/// The year as `{:04}` writes it.
pub open spec fn year_text(y: int) -> Seq<char> {
    if y < 0 {
        seq!['-'] + zero_pad(decimal_chars((-y) as nat), 3)
    } else {
        zero_pad(decimal_chars(y as nat), 4)
    }
}

/// `YYYY-MM-DD`.
pub open spec fn iso_text(d: CivilDate) -> Seq<char> {
    year_text(d.year as int) + seq!['-'] + zero_pad(decimal_chars(d.month as nat), 2) + seq!['-']
        + zero_pad(decimal_chars(d.day as nat), 2)
}

/// What strict `YYYY-MM-DD` reading gives.
pub open spec fn iso_parsed(s: Seq<char>) -> Option<CivilDate> {
    if s.len() != 10 || s[4] != '-' || s[7] != '-' {
        None
    } else {
        match (segment(s.subrange(0, 4)), segment(s.subrange(5, 7)), segment(s.subrange(8, 10))) {
            (Some(y), Some(m), Some(d)) => if 1 <= m <= 12 && 1 <= d <= month_len(y as int, m as int) {
                Some(CivilDate { year: y as i64, month: m, day: d })
            } else {
                None
            },
            _ => None,
        }
    }
}

/// Appends `n` with zeros in front up to `width` characters.
fn push_padded(out: &mut String, n: u64, width: usize)
    requires
        width <= 4,
    ensures
        final(out)@ == old(out)@ + zero_pad(decimal_chars(n as nat), width as nat),
{
    let mut digits = String::new();
    push_decimal(&mut digits, n);
    assert(digits@ =~= decimal_chars(n as nat));
    let len = digits.as_str().unicode_len();
    let mut k = len;
    assert(old(out)@ + Seq::new(0, |i: int| '0') =~= old(out)@);
    while k < width
        invariant
            len == decimal_chars(n as nat).len(),
            len <= k <= width || (k == len && len >= width),
            out@ == old(out)@ + Seq::new((k - len) as nat, |i: int| '0'),
        decreases width - k,
    {
        push_char(out, '0');
        k = k + 1;
        assert(out@ =~= old(out)@ + Seq::new((k - len) as nat, |i: int| '0'));
    }
    append_str(out, digits.as_str());
    assert(out@ =~= old(out)@ + zero_pad(decimal_chars(n as nat), width as nat));
}

/// The log file name of a date.
pub open spec fn log_name_text(d: CivilDate) -> Seq<char> {
    "orbis."@ + iso_text(d) + ".log"@
}

/// The date a log file name carries, for names of exactly the
/// `orbis.YYYY-MM-DD.log` form.
pub open spec fn log_name_date(name: Seq<char>) -> Option<CivilDate> {
    if name.len() >= 10 && name.take(6) == "orbis."@ && name.skip(name.len() - 4) == ".log"@ {
        iso_parsed(name.subrange(6, name.len() - 4))
    } else {
        None
    }
}

/// `orbis.YYYY-MM-DD.log`.
pub fn log_file_name(date: CivilDate) -> (r: String)
    ensures
        r@ == log_name_text(date),
{
    let mut r = owned(LOG_FILE_PREFIX);
    let iso = date.to_iso();
    append_str(&mut r, iso.as_str());
    append_str(&mut r, LOG_FILE_SUFFIX);
    r
}

/// The date of a log file name; `None` for any other name, so that cleanup
/// never touches a file that is not a log.
pub fn parse_log_file_date(file_name: &str) -> (r: Option<CivilDate>)
    ensures
        r == log_name_date(file_name@),
{
    proof {
        reveal_strlit("orbis.");
        reveal_strlit(".log");
    }
    let cs = chars_of(file_name);
    let n = cs.len();
    if n < 10 {
        return None;
    }
    if !range_eq(&cs, 0, 6, "orbis.") || !range_eq(&cs, n - 4, n, ".log") {
        assert(file_name@.take(6) =~= cs@.subrange(0, 6));
        assert(file_name@.skip(n - 4) =~= cs@.subrange(n - 4, n as int));
        return None;
    }
    assert(file_name@.take(6) =~= cs@.subrange(0, 6));
    assert(file_name@.skip(n - 4) =~= cs@.subrange(n - 4, n as int));
    let mut inner = String::new();
    let mut i: usize = 6;
    while i < n - 4
        invariant
            6 <= i <= n - 4,
            n == cs@.len(),
            n >= 10,
            inner@ == cs@.subrange(6, i as int),
        decreases n - 4 - i,
    {
        push_char(&mut inner, cs[i]);
        i = i + 1;
        assert(inner@ =~= cs@.subrange(6, i as int));
    }
    assert(inner@ =~= file_name@.subrange(6, file_name@.len() - 4));
    CivilDate::parse_iso(inner.as_str())
}

proof fn lemma_decimal_len(n: nat)
    ensures
        n < 10 ==> decimal_chars(n).len() == 1,
        n < 100 ==> decimal_chars(n).len() <= 2,
        n < 1000 ==> decimal_chars(n).len() <= 3,
        n < 10000 ==> decimal_chars(n).len() <= 4,
{
    reveal_with_fuel(decimal_chars, 5);
}

proof fn lemma_zero_prefix(s: Seq<char>)
    ensures
        decimal_value(seq!['0'] + s) == decimal_value(s),
        all_digits(s) ==> all_digits(seq!['0'] + s),
    decreases s.len(),
{
    lemma_digit_char(0);
    assert(digit_char(0) == '0');
    if s.len() == 0 {
        let t = seq!['0'] + s;
        assert(t.drop_last() =~= Seq::<char>::empty());
        assert(decimal_value(t) == decimal_value(t.drop_last()) * 10 + digit_value(t.last()));
    } else {
        lemma_zero_prefix(s.drop_last());
        let t = seq!['0'] + s;
        assert(t.drop_last() =~= seq!['0'] + s.drop_last());
        assert(t.last() == s.last());
    }
    if all_digits(s) {
        assert forall|i: int| 0 <= i < (seq!['0'] + s).len() implies is_digit(#[trigger] (seq!['0'] + s)[i]) by {
            if i > 0 {
                assert((seq!['0'] + s)[i] == s[i - 1]);
            }
        }
    }
}

proof fn lemma_zeros_prefix(k: nat, s: Seq<char>)
    ensures
        decimal_value(Seq::new(k, |i: int| '0') + s) == decimal_value(s),
        all_digits(s) ==> all_digits(Seq::new(k, |i: int| '0') + s),
    decreases k,
{
    if k > 0 {
        lemma_zeros_prefix((k - 1) as nat, s);
        let rest = Seq::new((k - 1) as nat, |i: int| '0') + s;
        lemma_zero_prefix(rest);
        assert(Seq::new(k, |i: int| '0') + s =~= seq!['0'] + rest);
    } else {
        assert(Seq::new(k, |i: int| '0') + s =~= s);
    }
}

/// A number written with at least `width` digits reads back as itself.
proof fn lemma_padded(n: nat, width: nat)
    requires
        2 <= width <= 4,
        width == 2 ==> n < 100,
        width == 4 ==> n < 10000,
        width == 3 ==> n < 1000,
    ensures
        zero_pad(decimal_chars(n), width).len() == width,
        segment(zero_pad(decimal_chars(n), width)) == Some(n as u32),
{
    lemma_decimal_len(n);
    lemma_decimal_chars(n);
    let ds = decimal_chars(n);
    let k = (width - ds.len()) as nat;
    lemma_zeros_prefix(k, ds);
    if ds.len() >= width {
        assert(zero_pad(ds, width) == ds);
    } else {
        assert(zero_pad(ds, width) == Seq::new(k, |i: int| '0') + ds);
    }
}

/// Writing a date of years 0 to 9999 and reading it back gives the date.
pub proof fn lemma_iso_roundtrip(d: CivilDate)
    requires
        valid_date(d),
        0 <= d.year <= 9999,
    ensures
        iso_text(d).len() == 10,
        iso_parsed(iso_text(d)) == Some(d),
{
    lemma_padded(d.year as nat, 4);
    lemma_padded(d.month as nat, 2);
    lemma_padded(d.day as nat, 2);
    let y = zero_pad(decimal_chars(d.year as nat), 4);
    let m = zero_pad(decimal_chars(d.month as nat), 2);
    let dd = zero_pad(decimal_chars(d.day as nat), 2);
    let t = iso_text(d);
    assert(t == y + seq!['-'] + m + seq!['-'] + dd);
    assert(t.subrange(0, 4) =~= y);
    assert(t.subrange(5, 7) =~= m);
    assert(t.subrange(8, 10) =~= dd);
    assert(t[4] == '-');
    assert(t[7] == '-');
}

/// Naming a date's log file and reading the name back gives the date.
pub proof fn lemma_log_name_roundtrip(d: CivilDate)
    requires
        valid_date(d),
        0 <= d.year <= 9999,
    ensures
        log_name_date(log_name_text(d)) == Some(d),
{
    lemma_iso_roundtrip(d);
    reveal_strlit("orbis.");
    reveal_strlit(".log");
    let name = log_name_text(d);
    assert(name.len() == 20);
    assert(name.take(6) =~= "orbis."@);
    assert(name.skip(16) =~= ".log"@);
    assert(name.subrange(6, 16) =~= iso_text(d));
}

/// A run of digits is its own value written with as many digits as the run
/// has: leading zeros and all.
proof fn lemma_run_is_padded(s: Seq<char>)
    requires
        s.len() > 0,
        all_digits(s),
    ensures
        zero_pad(decimal_chars(decimal_value(s)), s.len()) == s,
    decreases s.len(),
{
    let c = s.last();
    assert(is_digit(s[s.len() - 1]));
    let d = digit_value(c);
    lemma_digit_char(d);
    assert(digit_char(d) == c);
    if s.len() == 1 {
        assert(s.drop_last() =~= Seq::<char>::empty());
        assert(decimal_value(s) == d);
        assert(decimal_chars(d) =~= s);
    } else {
        let p = s.drop_last();
        assert forall|i: int| 0 <= i < p.len() implies is_digit(#[trigger] p[i]) by {
            assert(p[i] == s[i]);
        }
        lemma_run_is_padded(p);
        let v = decimal_value(p);
        let n = s.len();
        assert(decimal_value(s) == v * 10 + d);
        if v == 0 {
            assert(decimal_chars(0) =~= seq!['0']) by {
                lemma_digit_char(0);
            }
            assert(decimal_chars(decimal_value(s)) =~= seq![c]);
            assert(p =~= Seq::new((n - 1) as nat, |i: int| '0')) by {
                if n - 1 > 1 {
                    assert(zero_pad(seq!['0'], (n - 1) as nat) =~= Seq::new((n - 2) as nat, |i: int| '0') + seq!['0']);
                }
            }
            assert(zero_pad(seq![c], n) =~= Seq::new((n - 1) as nat, |i: int| '0') + seq![c]);
            assert(s =~= p.push(c));
        } else {
            let w = v * 10 + d;
            assert(w / 10 == v && w % 10 == d) by (nonlinear_arith)
                requires
                    w == v * 10 + d,
                    d < 10,
            ;
            let ds = decimal_chars(v);
            assert(decimal_chars(w) == ds.push(c));
            let len = ds.len();
            assert(len <= n - 1) by {
                if len > n - 1 {
                    assert(zero_pad(ds, (n - 1) as nat) == ds);
                }
            }
            let k = (n - 1 - len) as nat;
            assert(p =~= Seq::new(k, |i: int| '0') + ds) by {
                if len == n - 1 {
                    assert(zero_pad(ds, (n - 1) as nat) == ds);
                } else {
                    assert(zero_pad(ds, (n - 1) as nat) == Seq::new(k, |i: int| '0') + ds);
                }
            }
            if len + 1 == n {
                assert(zero_pad(ds.push(c), n) == ds.push(c));
            } else {
                assert(zero_pad(ds.push(c), n) == Seq::new(k, |i: int| '0') + ds.push(c));
            }
            assert(s =~= p.push(c));
            assert(zero_pad(ds.push(c), n) =~= s);
        }
    }
}

/// A `YYYY-MM-DD` text that reads as a date is that date written out: the
/// reading accepts no spelling but the one `to_iso` writes.
pub proof fn lemma_iso_parsed_is_its_text(s: Seq<char>)
    requires
        iso_parsed(s) is Some,
    ensures
        iso_text(iso_parsed(s)->0) == s,
{
    let d = iso_parsed(s)->0;
    let ys = s.subrange(0, 4);
    let ms = s.subrange(5, 7);
    let ds = s.subrange(8, 10);
    lemma_run_is_padded(ys);
    lemma_run_is_padded(ms);
    lemma_run_is_padded(ds);
    assert(d.year as int == decimal_value(ys));
    assert(d.month as nat == decimal_value(ms));
    assert(d.day as nat == decimal_value(ds));
    assert(year_text(d.year as int) == ys);
    assert(s =~= ys + seq!['-'] + ms + seq!['-'] + ds);
}

/// A name that reads as a log file's date is exactly the log file name of
/// that date: no other spelling of a date is taken for a log.
pub proof fn lemma_log_name_date_is_its_name(name: Seq<char>)
    requires
        log_name_date(name) is Some,
    ensures
        log_name_text(log_name_date(name)->0) == name,
{
    let inner = name.subrange(6, name.len() - 4);
    lemma_iso_parsed_is_its_text(inner);
    assert(name =~= name.take(6) + inner + name.skip(name.len() - 4));
}

/// `a` comes strictly before `b` in calendar order.
pub open spec fn date_before(a: CivilDate, b: CivilDate) -> bool {
    a.year < b.year || (a.year == b.year && (a.month < b.month || (a.month == b.month && a.day
        < b.day)))
}

/// What cleanup does with one directory entry.
#[derive(Debug, Clone, Copy, PartialEq, Eq, Structural)]
pub enum CleanupAction {
    /// Not a log file name: never touched.
    Ignore,
    /// A log file still within the retention period.
    Retain,
    /// A log file older than the retention period.
    Remove,
}

/// The oldest date still kept: `retention_days` days before today.
pub fn cleanup_cutoff(today: CivilDate, retention_days: u32) -> (r: CivilDate)
    requires
        i64::MIN + 4294967295 <= day_number(today) <= i64::MAX,
    ensures
        valid_date(r),
        day_number(r) == day_number(today) - retention_days,
{
    today.add_days(0 - retention_days as i64)
}

/// Cleanup's decision for an entry name: only names of exactly the log
/// form are ever removed, and only when their date is before the cutoff.
pub fn cleanup_action(file_name: &str, cutoff: CivilDate) -> (r: CleanupAction)
    ensures
        r == (match log_name_date(file_name@) {
            None => CleanupAction::Ignore,
            Some(d) => if date_before(d, cutoff) {
                CleanupAction::Remove
            } else {
                CleanupAction::Retain
            },
        }),
{
    match parse_log_file_date(file_name) {
        None => CleanupAction::Ignore,
        Some(d) => {
            let before = d.year < cutoff.year || (d.year == cutoff.year && (d.month < cutoff.month
                || (d.month == cutoff.month && d.day < cutoff.day)));
            if before {
                CleanupAction::Remove
            } else {
                CleanupAction::Retain
            }
        },
    }
}

/// A name that is not of the log form is never removed, whatever the cutoff.
pub proof fn lemma_cleanup_never_touches_other_names(name: Seq<char>, cutoff: CivilDate)
    requires
        log_name_date(name) is None,
    ensures
        (match log_name_date(name) {
            None => CleanupAction::Ignore,
            Some(d) => if date_before(d, cutoff) {
                CleanupAction::Remove
            } else {
                CleanupAction::Retain
            },
        }) == CleanupAction::Ignore,
{
}

/// The outcome of one cleanup: whole files removed, never lines.
#[derive(Debug, Clone, PartialEq, Eq)]
pub struct CleanupReport {
    pub removed: Vec<String>,
    pub failed: Vec<(String, String)>,
    /// Log files still within the retention period.
    pub retained: usize,
}

impl CleanupReport {
    pub fn new() -> (r: CleanupReport)
        ensures
            r.removed@.len() == 0,
            r.failed@.len() == 0,
            r.retained == 0,
    {
        CleanupReport { removed: Vec::new(), failed: Vec::new(), retained: 0 }
    }

    /// No removal failed.
    pub fn is_clean(&self) -> (r: bool)
        ensures
            r == (self.failed@.len() == 0),
    {
        self.failed.len() == 0
    }
}

} // verus!
