//! Play time: sessions follow the life of a game's process.
//!
//! A session opens when an installation's process appears, is saved at a
//! checkpoint every `checkpoint_sec` while it runs, and closes when the
//! process disappears.  The tracker decides what to write; the database
//! writes happen outside the library, which then applies the decision.
//! Totals over a window count only the part of each session inside it.

use vstd::prelude::*;

use crate::text::{append_str, int_text, owned, push_int, str_eq};

verus! {

/// A change of a session, for the log.
#[derive(Debug, Clone, PartialEq, Eq)]
pub enum TrackedEvent {
    Started { installation_id: String, session_id: String },
    Ended { installation_id: String, session_id: String, duration_sec: i64 },
}

/// A session in progress.
#[derive(Debug, Clone, PartialEq, Eq)]
pub struct OpenSession {
    pub installation_id: String,
    pub id: String,
    pub started_at: i64,
    pub checkpoint_at: i64,
}

/// What the database must record for one observation.
#[derive(Debug, Clone, PartialEq, Eq)]
pub enum SessionWrite {
    /// Insert a new session row.
    Open { session_id: String, installation_id: String, started_at: i64, checkpoint_at: i64 },
    /// Move a running session's checkpoint.
    Checkpoint { session_id: String, checkpoint_at: i64, duration_sec: i64 },
    /// Close a session.
    Close { session_id: String, ended_at: i64, duration_sec: i64 },
}

/// The sessions in progress, one at most per installation.  Held in memory
/// on purpose: only the running process knows what runs.
#[derive(Debug)]
pub struct PlaytimeTracker {
    open: Vec<OpenSession>,
}

impl View for PlaytimeTracker {
    type V = Seq<OpenSession>;

    closed spec fn view(&self) -> Seq<OpenSession> {
        self.open@
    }
}

/// No installation has two sessions in progress.
pub open spec fn one_per_installation(s: Seq<OpenSession>) -> bool {
    forall|i: int, j: int|
        0 <= i < j < s.len() ==> (#[trigger] s[i]).installation_id@ != (#[trigger] s[j]).installation_id@
}

/// The position of an installation's session.
pub open spec fn open_index(s: Seq<OpenSession>, installation_id: Seq<char>) -> Option<int> {
    if exists|i: int| 0 <= i < s.len() && (#[trigger] s[i]).installation_id@ == installation_id {
        Some(choose|i: int| 0 <= i < s.len() && (#[trigger] s[i]).installation_id@ == installation_id)
    } else {
        None
    }
}

/// The checkpoint interval in milliseconds (at least one second).
pub open spec fn checkpoint_ms(checkpoint_sec: u32) -> int {
    (if checkpoint_sec == 0 {
        1
    } else {
        checkpoint_sec as int
    }) * 1000
}

/// Whole seconds from `start` to `end`, never negative.
pub open spec fn duration_of(start: int, end: int) -> int {
    if end - start > 0 {
        (end - start) / 1000
    } else {
        0
    }
}

/// A session's id: `<installation_id>@<started_at>`.
pub open spec fn session_id_text(installation_id: Seq<char>, started_at: int) -> Seq<char> {
    installation_id + "@"@ + int_text(started_at)
}

/// The write one observation calls for.
pub open spec fn decided(
    s: Seq<OpenSession>,
    installation_id: Seq<char>,
    running: bool,
    now: int,
    checkpoint_sec: u32,
    w: Option<SessionWrite>,
) -> bool {
    match open_index(s, installation_id) {
        None => if running {
            w matches Some(SessionWrite::Open { session_id, installation_id: inst, started_at, checkpoint_at })
                && session_id@ == session_id_text(installation_id, now) && inst@ == installation_id
                && started_at == now && checkpoint_at == now
        } else {
            w is None
        },
        Some(i) => if running {
            if now - s[i].checkpoint_at >= checkpoint_ms(checkpoint_sec) {
                w matches Some(SessionWrite::Checkpoint { session_id, checkpoint_at, duration_sec })
                    && session_id == s[i].id && checkpoint_at == now && duration_sec == duration_of(
                    s[i].started_at as int,
                    now,
                )
            } else {
                w is None
            }
        } else {
            w matches Some(SessionWrite::Close { session_id, ended_at, duration_sec })
                && session_id == s[i].id && ended_at == now && duration_sec == duration_of(
                s[i].started_at as int,
                now,
            )
        },
    }
}

proof fn lemma_whole_seconds(span: int, d: int)
    requires
        span > 0,
        d == span / 1000,
    ensures
        d * 1000 <= span < (d + 1) * 1000,
{
    assert(d * 1000 <= span < (d + 1) * 1000) by (nonlinear_arith)
        requires
            span > 0,
            d == span / 1000,
    ;
}

/// Closing a session records the close time and the whole seconds from the
/// session's start to the close (none when the clock went backwards).
pub proof fn lemma_close_counts_from_start(
    s: Seq<OpenSession>,
    installation_id: Seq<char>,
    now: int,
    checkpoint_sec: u32,
    w: Option<SessionWrite>,
    i: int,
)
    requires
        open_index(s, installation_id) == Some(i),
        decided(s, installation_id, false, now, checkpoint_sec, w),
    ensures
        w matches Some(SessionWrite::Close { session_id, ended_at, duration_sec }) && {
            &&& session_id == s[i].id
            &&& ended_at == now
            &&& now <= s[i].started_at ==> duration_sec == 0
            &&& now > s[i].started_at ==> duration_sec * 1000 <= now - s[i].started_at < (duration_sec + 1)
                * 1000
        },
{
    if now > s[i].started_at {
        lemma_whole_seconds(now - s[i].started_at, duration_of(s[i].started_at as int, now));
    }
}

/// While a session runs, a checkpoint is saved exactly when at least the
/// interval (`checkpoint_sec`, at least one second) has passed since the
/// last one; it records the whole seconds since the session's start.
pub proof fn lemma_checkpoint_when_due(
    s: Seq<OpenSession>,
    installation_id: Seq<char>,
    now: int,
    checkpoint_sec: u32,
    w: Option<SessionWrite>,
    i: int,
)
    requires
        open_index(s, installation_id) == Some(i),
        decided(s, installation_id, true, now, checkpoint_sec, w),
    ensures
        w is Some <==> now - s[i].checkpoint_at >= (if checkpoint_sec == 0 { 1000 } else { checkpoint_sec * 1000 }),
        w is Some ==> (w matches Some(SessionWrite::Checkpoint { session_id, checkpoint_at, duration_sec }) && {
            &&& session_id == s[i].id
            &&& checkpoint_at == now
            &&& now > s[i].started_at ==> duration_sec * 1000 <= now - s[i].started_at < (duration_sec + 1)
                * 1000
            &&& now <= s[i].started_at ==> duration_sec == 0
        }),
{
    if now > s[i].started_at {
        lemma_whole_seconds(now - s[i].started_at, duration_of(s[i].started_at as int, now));
    }
}

/// An installation without a session opens one, starting now, when its
/// process appears, and nothing is written while it does not run.
pub proof fn lemma_open_when_process_appears(
    s: Seq<OpenSession>,
    installation_id: Seq<char>,
    running: bool,
    now: int,
    checkpoint_sec: u32,
    w: Option<SessionWrite>,
)
    requires
        forall|j: int| 0 <= j < s.len() ==> (#[trigger] s[j]).installation_id@ != installation_id,
        decided(s, installation_id, running, now, checkpoint_sec, w),
    ensures
        !running ==> w is None,
        running ==> (w matches Some(SessionWrite::Open { installation_id: inst, started_at, checkpoint_at, .. })
            && inst@ == installation_id && started_at == now && checkpoint_at == now),
{
}

/// What a close records depends on the session's id and start alone, not on
/// when its last checkpoint was saved nor on the checkpoint interval.
pub proof fn lemma_close_ignores_checkpoints(
    s1: Seq<OpenSession>,
    s2: Seq<OpenSession>,
    installation_id: Seq<char>,
    now: int,
    checkpoint_sec1: u32,
    checkpoint_sec2: u32,
    w1: Option<SessionWrite>,
    w2: Option<SessionWrite>,
    i1: int,
    i2: int,
)
    requires
        open_index(s1, installation_id) == Some(i1),
        open_index(s2, installation_id) == Some(i2),
        s1[i1].id == s2[i2].id,
        s1[i1].started_at == s2[i2].started_at,
        decided(s1, installation_id, false, now, checkpoint_sec1, w1),
        decided(s2, installation_id, false, now, checkpoint_sec2, w2),
    ensures
        w1 == w2,
{
}

/// Seconds from `started_at` to `ended_at`, never negative.
pub fn duration_sec(started_at: i64, ended_at: i64) -> (r: i64)
    ensures
        r == duration_of(started_at as int, ended_at as int),
{
    let diff: i128 = ended_at as i128 - started_at as i128;
    if diff > 0 {
        (diff / 1000) as i64
    } else {
        0
    }
}

/// The overlap of a session and a window, in whole seconds.
pub open spec fn overlap_of(session_start: int, session_end: int, window_start: int, window_end: int) -> int {
    let lo = if session_start > window_start {
        session_start
    } else {
        window_start
    };
    let hi = if session_end < window_end {
        session_end
    } else {
        window_end
    };
    if hi <= lo {
        0
    } else {
        (hi - lo) / 1000
    }
}

/// How much of a session falls inside a window, in whole seconds: a session
/// across midnight only counts its part inside the day.
pub fn overlap_sec(session_start: i64, session_end: i64, window_start: i64, window_end: i64) -> (r: i64)
    ensures
        r == overlap_of(session_start as int, session_end as int, window_start as int, window_end as int),
{
    let lo = if session_start > window_start {
        session_start
    } else {
        window_start
    };
    let hi = if session_end < window_end {
        session_end
    } else {
        window_end
    };
    if hi <= lo {
        0
    } else {
        ((hi as i128 - lo as i128) / 1000) as i64
    }
}

/// The id of a session that starts at `started_at_ms`.
pub fn session_id(installation_id: &str, started_at_ms: i64) -> (r: String)
    ensures
        r@ == session_id_text(installation_id@, started_at_ms as int),
{
    let mut r = owned(installation_id);
    append_str(&mut r, "@");
    push_int(&mut r, started_at_ms as i128);
    r
}

impl PlaytimeTracker {
    #[verifier::type_invariant]
    spec fn inv(self) -> bool {
        one_per_installation(self.open@)
    }

    /// No session in progress.
    pub fn new() -> (r: PlaytimeTracker)
        ensures
            r@.len() == 0,
    {
        PlaytimeTracker { open: Vec::new() }
    }

    /// How many sessions are in progress.
    pub fn open_count(&self) -> (r: usize)
        ensures
            r == self@.len(),
    {
        self.open.len()
    }

    /// The sessions in progress.
    pub fn sessions(&self) -> (r: &[OpenSession])
        ensures
            r@ == self@,
            one_per_installation(r@),
    {
        proof {
            use_type_invariant(self);
        }
        self.open.as_slice()
    }

    fn find(&self, installation_id: &str) -> (r: Option<usize>)
        ensures
            match r {
                Some(i) => i < self@.len() && self@[i as int].installation_id@ == installation_id@
                    && open_index(self@, installation_id@) == Some(i as int),
                None => open_index(self@, installation_id@) is None,
            },
    {
        proof {
            use_type_invariant(self);
        }
        let mut i: usize = 0;
        while i < self.open.len()
            invariant
                i <= self.open@.len(),
                self@ == self.open@,
                one_per_installation(self.open@),
                forall|k: int| 0 <= k < i ==> (#[trigger] self.open@[k]).installation_id@ != installation_id@,
            decreases self.open@.len() - i,
        {
            if str_eq(self.open[i].installation_id.as_str(), installation_id) {
                proof {
                    let j = open_index(self@, installation_id@).unwrap();
                    assert(self@[j].installation_id@ == installation_id@);
                    if j != i as int {
                        if j < i {
                            assert(self.open@[j].installation_id@ != installation_id@);
                        } else {
                            assert(self.open@[i as int].installation_id@ != self.open@[j].installation_id@);
                        }
                    }
                }
                return Some(i);
            }
            i = i + 1;
        }
        None
    }

    /// What one observation of an installation calls for: open a session
    /// when its process appears, save a checkpoint when the interval has
    /// passed, close the session when the process is gone.
    pub fn decide(&self, installation_id: &str, running: bool, now_ms: i64, checkpoint_sec: u32) -> (r:
        Option<SessionWrite>)
        ensures
            decided(self@, installation_id@, running, now_ms as int, checkpoint_sec, r),
    {
        match self.find(installation_id) {
            None => if running {
                Some(
                    SessionWrite::Open {
                        session_id: session_id(installation_id, now_ms),
                        installation_id: owned(installation_id),
                        started_at: now_ms,
                        checkpoint_at: now_ms,
                    },
                )
            } else {
                None
            },
            Some(i) => {
                let s = &self.open[i];
                if running {
                    let interval: i128 = (if checkpoint_sec == 0 {
                        1
                    } else {
                        checkpoint_sec
                    }) as i128 * 1000;
                    if now_ms as i128 - s.checkpoint_at as i128 >= interval {
                        Some(
                            SessionWrite::Checkpoint {
                                session_id: s.id.clone(),
                                checkpoint_at: now_ms,
                                duration_sec: duration_sec(s.started_at, now_ms),
                            },
                        )
                    } else {
                        None
                    }
                } else {
                    Some(
                        SessionWrite::Close {
                            session_id: s.id.clone(),
                            ended_at: now_ms,
                            duration_sec: duration_sec(s.started_at, now_ms),
                        },
                    )
                }
            },
        }
    }

    /// Records that a decided write was made: an opened session is tracked,
    /// a checkpoint moves, a closed session is dropped.
    pub fn apply(&mut self, installation_id: &str, write: &SessionWrite)
        requires
            match write {
                SessionWrite::Open { installation_id: inst, .. } => inst@ == installation_id@
                    && open_index(old(self)@, installation_id@) is None,
                _ => open_index(old(self)@, installation_id@) is Some,
            },
        ensures
            match write {
                SessionWrite::Open { session_id, installation_id: inst, started_at, checkpoint_at } => {
                    &&& final(self)@.len() == old(self)@.len() + 1
                    &&& final(self)@.take(old(self)@.len() as int) == old(self)@
                    &&& final(self)@.last().installation_id == *inst
                    &&& final(self)@.last().id == *session_id
                    &&& final(self)@.last().started_at == *started_at
                    &&& final(self)@.last().checkpoint_at == *checkpoint_at
                },
                SessionWrite::Checkpoint { checkpoint_at, .. } => {
                    let i = open_index(old(self)@, installation_id@).unwrap();
                    final(self)@ == old(self)@.update(
                        i,
                        OpenSession { checkpoint_at: *checkpoint_at, ..old(self)@[i] },
                    )
                },
                SessionWrite::Close { .. } => {
                    let i = open_index(old(self)@, installation_id@).unwrap();
                    final(self)@ == old(self)@.remove(i)
                },
            },
    {
        proof {
            use_type_invariant(&*self);
        }
        match write {
            SessionWrite::Open { session_id, installation_id: inst, started_at, checkpoint_at } => {
                let session = OpenSession {
                    installation_id: inst.clone(),
                    id: session_id.clone(),
                    started_at: *started_at,
                    checkpoint_at: *checkpoint_at,
                };
                let ghost before = self.open@;
                let mut open: Vec<OpenSession> = Vec::new();
                std::mem::swap(&mut open, &mut self.open);
                open.push(session);
                proof {
                    assert forall|i: int, j: int| 0 <= i < j < open@.len() implies (#[trigger] open@[i]).installation_id@
                        != (#[trigger] open@[j]).installation_id@ by {
                        if j == before.len() {
                            assert(open@[i] == before[i]);
                            assert(open@[j].installation_id@ == installation_id@);
                            if before[i].installation_id@ == installation_id@ {
                                assert(open_index(before, installation_id@) is Some);
                            }
                        } else {
                            assert(open@[i] == before[i]);
                            assert(open@[j] == before[j]);
                        }
                    }
                    assert(open@.take(before.len() as int) =~= before);
                }
                self.open = open;
            },
            SessionWrite::Checkpoint { checkpoint_at, .. } => {
                let i = self.find(installation_id).unwrap();
                let ghost before = self.open@;
                let mut open: Vec<OpenSession> = Vec::new();
                std::mem::swap(&mut open, &mut self.open);
                let old_session = open.remove(i);
                let updated = OpenSession { checkpoint_at: *checkpoint_at, ..old_session };
                open.insert(i, updated);
                proof {
                    assert(open@ =~= before.update(
                        i as int,
                        OpenSession { checkpoint_at: *checkpoint_at, ..before[i as int] },
                    ));
                    assert forall|a: int, b: int| 0 <= a < b < open@.len() implies (#[trigger] open@[a]).installation_id@
                        != (#[trigger] open@[b]).installation_id@ by {
                        assert(open@[a].installation_id == before[a].installation_id);
                        assert(open@[b].installation_id == before[b].installation_id);
                    }
                }
                self.open = open;
            },
            SessionWrite::Close { .. } => {
                let i = self.find(installation_id).unwrap();
                let ghost before = self.open@;
                let mut open: Vec<OpenSession> = Vec::new();
                std::mem::swap(&mut open, &mut self.open);
                open.remove(i);
                proof {
                    assert(open@ =~= before.remove(i as int));
                    assert forall|a: int, b: int| 0 <= a < b < open@.len() implies (#[trigger] open@[a]).installation_id@
                        != (#[trigger] open@[b]).installation_id@ by {
                        let a2 = if a < i { a } else { a + 1 };
                        let b2 = if b < i { b } else { b + 1 };
                        assert(open@[a] == before[a2]);
                        assert(open@[b] == before[b2]);
                    }
                }
                self.open = open;
            },
        }
    }

    /// Drops every session in progress without writing anything.
    pub fn forget_open_sessions(&mut self)
        ensures
            final(self)@.len() == 0,
    {
        self.open = Vec::new();
    }
}

/// The log event of a write: opening and closing are events, a checkpoint is not.
pub fn tracked_event(installation_id: &str, write: &SessionWrite) -> (r: Option<TrackedEvent>)
    ensures
        match write {
            SessionWrite::Open { session_id, .. } => r matches Some(
                TrackedEvent::Started { installation_id: inst, session_id: sid },
            ) && inst@ == installation_id@ && sid == *session_id,
            SessionWrite::Checkpoint { .. } => r is None,
            SessionWrite::Close { session_id, duration_sec, .. } => r matches Some(
                TrackedEvent::Ended { installation_id: inst, session_id: sid, duration_sec: d },
            ) && inst@ == installation_id@ && sid == *session_id && d == *duration_sec,
        },
{
    match write {
        SessionWrite::Open { session_id, .. } => Some(
            TrackedEvent::Started {
                installation_id: owned(installation_id),
                session_id: session_id.clone(),
            },
        ),
        SessionWrite::Checkpoint { .. } => None,
        SessionWrite::Close { session_id, duration_sec, .. } => Some(
            TrackedEvent::Ended {
                installation_id: owned(installation_id),
                session_id: session_id.clone(),
                duration_sec: *duration_sec,
            },
        ),
    }
}

/// One stored session, with the game of its installation.
#[derive(Debug, Clone, PartialEq, Eq)]
pub struct PlaytimeSessionRecord {
    pub id: String,
    pub installation_id: String,
    pub game_id: String,
    pub started_at: i64,
    pub checkpoint_at: i64,
    /// `None` while the session is in progress.
    pub ended_at: Option<i64>,
    pub duration_sec: i64,
}

/// The play time of one installation in a window.
#[derive(Debug, Clone, PartialEq, Eq)]
pub struct PlaytimeRow {
    pub installation_id: String,
    pub game_id: String,
    pub seconds: i64,
}

/// What a session adds to a window: open sessions run until `now`; with no
/// window the whole session counts.
pub open spec fn contribution(s: PlaytimeSessionRecord, since: Option<i64>, now: i64) -> int {
    let ended: int = match s.ended_at {
        Some(e) => e as int,
        None => now as int,
    };
    match since {
        Some(w) => overlap_of(s.started_at as int, ended, w as int, now as int),
        None => duration_of(s.started_at as int, ended),
    }
}

/// With a window `[since, now)`, a session (finished, or running until
/// `now`) counts the whole seconds of its overlap with the window, and
/// nothing when they do not overlap.
pub proof fn lemma_window_counts_overlap(s: PlaytimeSessionRecord, since: i64, now: i64)
    ensures
        ({
            let end: int = match s.ended_at {
                Some(e) => e as int,
                None => now as int,
            };
            let lo: int = if s.started_at > since { s.started_at as int } else { since as int };
            let hi: int = if end < now { end } else { now as int };
            let c = counted(contribution(s, Some(since), now));
            &&& hi <= lo ==> c == 0
            &&& hi > lo ==> c * 1000 <= hi - lo < (c + 1) * 1000
        }),
{
    let end: int = match s.ended_at {
        Some(e) => e as int,
        None => now as int,
    };
    let lo: int = if s.started_at > since { s.started_at as int } else { since as int };
    let hi: int = if end < now { end } else { now as int };
    if hi > lo {
        lemma_whole_seconds(hi - lo, (hi - lo) / 1000);
    }
}

/// Without a window a session counts the whole seconds from its start to
/// its end (to `now` while it runs).
pub proof fn lemma_no_window_counts_whole_span(s: PlaytimeSessionRecord, now: i64)
    ensures
        ({
            let end: int = match s.ended_at {
                Some(e) => e as int,
                None => now as int,
            };
            let c = counted(contribution(s, None, now));
            &&& end <= s.started_at ==> c == 0
            &&& end > s.started_at ==> c * 1000 <= end - s.started_at < (c + 1) * 1000
        }),
{
    let end: int = match s.ended_at {
        Some(e) => e as int,
        None => now as int,
    };
    if end > s.started_at {
        lemma_whole_seconds(end - s.started_at, (end - s.started_at) / 1000);
    }
}

/// A session that ended before a window starts adds nothing to any total
/// over that window.
pub proof fn lemma_session_before_window_adds_nothing(
    sessions: Seq<PlaytimeSessionRecord>,
    s: PlaytimeSessionRecord,
    installation_id: Seq<char>,
    since: i64,
    now: i64,
)
    requires
        s.ended_at matches Some(e) && e <= since,
    ensures
        installation_total(sessions.push(s), installation_id, Some(since), now) == installation_total(
            sessions,
            installation_id,
            Some(since),
            now,
        ),
{
    lemma_window_counts_overlap(s, since, now);
    assert(sessions.push(s).drop_last() =~= sessions);
}

/// A window never adds time: a session counts no more inside a window than
/// its whole span.
pub proof fn lemma_window_never_adds(s: PlaytimeSessionRecord, since: i64, now: i64)
    ensures
        counted(contribution(s, Some(since), now)) <= counted(contribution(s, None, now)),
{
    let end: int = match s.ended_at {
        Some(e) => e as int,
        None => now as int,
    };
    let lo: int = if s.started_at > since { s.started_at as int } else { since as int };
    let hi: int = if end < now { end } else { now as int };
    if hi > lo {
        let a = hi - lo;
        let b = end - s.started_at;
        assert(a / 1000 <= b / 1000) by (nonlinear_arith)
            requires
                0 < a <= b,
        ;
    }
}

/// The position of an installation's row.
pub open spec fn row_index(rows: Seq<PlaytimeRow>, installation_id: Seq<char>) -> Option<int> {
    if exists|i: int| 0 <= i < rows.len() && (#[trigger] rows[i]).installation_id@ == installation_id {
        Some(choose|i: int| 0 <= i < rows.len() && (#[trigger] rows[i]).installation_id@ == installation_id)
    } else {
        None
    }
}

/// The seconds a session adds to its installation's total: its
/// contribution when positive, else nothing.
pub open spec fn counted(c: int) -> int {
    if c > 0 {
        c
    } else {
        0
    }
}

/// An installation's total over a list of sessions in a window.
pub open spec fn installation_total(
    sessions: Seq<PlaytimeSessionRecord>,
    installation_id: Seq<char>,
    since: Option<i64>,
    now: i64,
) -> int
    decreases sessions.len(),
{
    if sessions.len() == 0 {
        0
    } else {
        installation_total(sessions.drop_last(), installation_id, since, now) + if sessions.last().installation_id@
            == installation_id {
            counted(contribution(sessions.last(), since, now))
        } else {
            0
        }
    }
}

/// A total over a prefix of the sessions is at most the total over all.
pub proof fn lemma_total_grows(
    sessions: Seq<PlaytimeSessionRecord>,
    k: int,
    installation_id: Seq<char>,
    since: Option<i64>,
    now: i64,
)
    requires
        0 <= k <= sessions.len(),
    ensures
        0 <= installation_total(sessions.take(k), installation_id, since, now) <= installation_total(
            sessions,
            installation_id,
            since,
            now,
        ),
    decreases sessions.len(),
{
    if sessions.len() > 0 {
        if k == sessions.len() {
            assert(sessions.take(k) =~= sessions);
            lemma_total_grows(sessions.drop_last(), k - 1, installation_id, since, now);
            assert(sessions.drop_last().take(k - 1) =~= sessions.drop_last());
        } else {
            lemma_total_grows(sessions.drop_last(), k, installation_id, since, now);
            assert(sessions.drop_last().take(k) =~= sessions.take(k));
        }
    }
}

/// The rows after one more session: its contribution is added to its
/// installation's row, or starts a new row; nothing positive, nothing added.
pub open spec fn rows_after(rows: Seq<PlaytimeRow>, s: PlaytimeSessionRecord, c: int, next: Seq<PlaytimeRow>) -> bool {
    if c <= 0 {
        next == rows
    } else {
        match row_index(rows, s.installation_id@) {
            Some(i) => next == rows.update(
                i,
                PlaytimeRow { seconds: (rows[i].seconds + c) as i64, ..rows[i] },
            ),
            None => {
                &&& next.len() == rows.len() + 1
                &&& next.take(rows.len() as int) == rows
                &&& next.last().installation_id@ == s.installation_id@
                &&& next.last().game_id@ == s.game_id@
                &&& next.last().seconds == c
            },
        }
    }
}

/// Whether every installation's total over the sessions fits an `i64`
/// (the condition [`aggregate_playtime`] needs).
pub open spec fn totals_fit(sessions: Seq<PlaytimeSessionRecord>, since: Option<i64>, now: i64) -> bool {
    forall|id: Seq<char>| #[trigger] installation_total(sessions, id, since, now) <= i64::MAX
}

/// An installation no session belongs to has no time.
proof fn lemma_absent_total_is_zero(
    sessions: Seq<PlaytimeSessionRecord>,
    id: Seq<char>,
    since: Option<i64>,
    now: i64,
)
    requires
        forall|k: int| 0 <= k < sessions.len() ==> (#[trigger] sessions[k]).installation_id@ != id,
    ensures
        installation_total(sessions, id, since, now) == 0,
    decreases sessions.len(),
{
    if sessions.len() > 0 {
        assert forall|k: int| 0 <= k < sessions.drop_last().len() implies (#[trigger] sessions.drop_last()[k]).installation_id@ != id by {
            assert(sessions.drop_last()[k] == sessions[k]);
        }
        lemma_absent_total_is_zero(sessions.drop_last(), id, since, now);
    }
}

/// A session's contribution to a window is a whole number of seconds no
/// larger than its span.
proof fn lemma_contribution_bounds(s: PlaytimeSessionRecord, since: Option<i64>, now: i64)
    ensures
        0 <= counted(contribution(s, since, now)) <= 0x100_0000_0000_0000,
{
}

/// The total of one installation, computed exactly.
fn total_of(sessions: &Vec<PlaytimeSessionRecord>, installation_id: &str, since_ms: Option<i64>, now_ms: i64) -> (r:
    i128)
    requires
        sessions@.len() <= usize::MAX,
    ensures
        r == installation_total(sessions@, installation_id@, since_ms, now_ms),
{
    let mut acc: i128 = 0;
    let mut j: usize = 0;
    while j < sessions.len()
        invariant
            j <= sessions@.len(),
            acc == installation_total(sessions@.take(j as int), installation_id@, since_ms, now_ms),
            0 <= acc <= j * 0x100_0000_0000_0000,
            sessions@.len() <= usize::MAX,
        decreases sessions@.len() - j,
    {
        let s = &sessions[j];
        assert(sessions@.take(j + 1).drop_last() =~= sessions@.take(j as int));
        proof {
            lemma_contribution_bounds(*s, since_ms, now_ms);
        }
        if str_eq(s.installation_id.as_str(), installation_id) {
            let ended = match s.ended_at {
                Some(e) => e,
                None => now_ms,
            };
            let seconds = match since_ms {
                Some(w) => overlap_sec(s.started_at, ended, w, now_ms),
                None => duration_sec(s.started_at, ended),
            };
            if seconds > 0 {
                assert(j * 0x100_0000_0000_0000 + 0x100_0000_0000_0000 <= 0x7fff_ffff_ffff_ffff_ffff_ffff_ffff_ffff) by (nonlinear_arith)
                    requires
                        j <= usize::MAX,
                ;
                acc = acc + seconds as i128;
            }
        }
        assert((j + 1) * 0x100_0000_0000_0000 == j * 0x100_0000_0000_0000 + 0x100_0000_0000_0000) by (nonlinear_arith);
        j = j + 1;
    }
    assert(sessions@.take(j as int) =~= sessions@);
    acc
}

/// Whether every installation's total fits an `i64`; a caller tests this
/// before aggregating.
pub fn playtime_totals_fit(sessions: &Vec<PlaytimeSessionRecord>, since_ms: Option<i64>, now_ms: i64) -> (r: bool)
    ensures
        r == totals_fit(sessions@, since_ms, now_ms),
{
    let mut k: usize = 0;
    while k < sessions.len()
        invariant
            k <= sessions@.len(),
            forall|t: int|
                0 <= t < k ==> #[trigger] installation_total(
                    sessions@,
                    sessions@[t].installation_id@,
                    since_ms,
                    now_ms,
                ) <= i64::MAX,
        decreases sessions@.len() - k,
    {
        let total = total_of(sessions, sessions[k].installation_id.as_str(), since_ms, now_ms);
        if total > 9223372036854775807i128 {
            return false;
        }
        k = k + 1;
    }
    assert forall|id: Seq<char>| #[trigger] installation_total(sessions@, id, since_ms, now_ms) <= i64::MAX by {
        if exists|t: int| 0 <= t < sessions@.len() && (#[trigger] sessions@[t]).installation_id@ == id {
            let t = choose|t: int| 0 <= t < sessions@.len() && (#[trigger] sessions@[t]).installation_id@ == id;
            assert(installation_total(sessions@, sessions@[t].installation_id@, since_ms, now_ms) <= i64::MAX);
        } else {
            lemma_absent_total_is_zero(sessions@, id, since_ms, now_ms);
        }
    }
    true
}

/// Per-installation totals of a list of sessions in a window `[since, now)`,
/// rows in the order installations first appear.  Every installation's
/// total must fit an `i64`.
pub fn aggregate_playtime(sessions: &Vec<PlaytimeSessionRecord>, since_ms: Option<i64>, now_ms: i64) -> (r:
    Vec<PlaytimeRow>)
    requires
        totals_fit(sessions@, since_ms, now_ms),
    ensures
        exists|states: Seq<Seq<PlaytimeRow>>|
            {
                &&& states.len() == sessions@.len() + 1
                &&& states[0].len() == 0
                &&& states.last() == r@
                &&& forall|k: int|
                    0 <= k < sessions@.len() ==> #[trigger] rows_after(
                        states[k],
                        sessions@[k],
                        contribution(sessions@[k], since_ms, now_ms),
                        states[k + 1],
                    )
            },
        forall|i: int, j: int|
            0 <= i < j < r@.len() ==> (#[trigger] r@[i]).installation_id@ != (#[trigger] r@[j]).installation_id@,
        forall|i: int| 0 <= i < r@.len() ==> (#[trigger] r@[i]).seconds > 0,
        forall|i: int|
            0 <= i < r@.len() ==> (#[trigger] r@[i]).seconds == installation_total(
                sessions@,
                r@[i].installation_id@,
                since_ms,
                now_ms,
            ),
{
    let mut rows: Vec<PlaytimeRow> = Vec::new();
    let ghost mut states: Seq<Seq<PlaytimeRow>> = seq![rows@];
    let mut k: usize = 0;
    while k < sessions.len()
        invariant
            k <= sessions@.len(),
            states.len() == k + 1,
            states[0].len() == 0,
            states.last() == rows@,
            forall|t: int|
                0 <= t < k ==> #[trigger] rows_after(
                    states[t],
                    sessions@[t],
                    contribution(sessions@[t], since_ms, now_ms),
                    states[t + 1],
                ),
            forall|i: int, j: int|
                0 <= i < j < rows@.len() ==> (#[trigger] rows@[i]).installation_id@
                    != (#[trigger] rows@[j]).installation_id@,
            forall|i: int| 0 <= i < rows@.len() ==> (#[trigger] rows@[i]).seconds > 0,
            forall|id: Seq<char>| #[trigger] installation_total(sessions@, id, since_ms, now_ms) <= i64::MAX,
            forall|i: int|
                0 <= i < rows@.len() ==> (#[trigger] rows@[i]).seconds == installation_total(
                    sessions@.take(k as int),
                    rows@[i].installation_id@,
                    since_ms,
                    now_ms,
                ),
            forall|id: Seq<char>|
                row_index(rows@, id) is None ==> #[trigger] installation_total(
                    sessions@.take(k as int),
                    id,
                    since_ms,
                    now_ms,
                ) == 0,
        decreases sessions@.len() - k,
    {
        let s = &sessions[k];
        let ended = match s.ended_at {
            Some(e) => e,
            None => now_ms,
        };
        let seconds = match since_ms {
            Some(w) => overlap_sec(s.started_at, ended, w, now_ms),
            None => duration_sec(s.started_at, ended),
        };
        let ghost before = rows@;
        if seconds > 0 {
            let mut i: usize = 0;
            let mut found: Option<usize> = None;
            while i < rows.len()
                invariant
                    i <= rows@.len(),
                    found is None ==> forall|t: int| 0 <= t < i ==> (#[trigger] rows@[t]).installation_id@ != s.installation_id@,
                    found matches Some(f) ==> f < rows@.len() && rows@[f as int].installation_id@ == s.installation_id@,
                decreases rows@.len() - i,
            {
                if found.is_none() && str_eq(rows[i].installation_id.as_str(), s.installation_id.as_str()) {
                    found = Some(i);
                }
                i = i + 1;
            }
            match found {
                Some(f) => {
                    proof {
                        let j = row_index(before, s.installation_id@).unwrap();
                        assert(before[j].installation_id@ == s.installation_id@);
                        if j != f as int {
                            assert(before[j].installation_id@ != before[f as int].installation_id@);
                        }
                    }
                    proof {
                        lemma_total_grows(sessions@, k + 1, s.installation_id@, since_ms, now_ms);
                        assert(sessions@.take(k + 1).drop_last() =~= sessions@.take(k as int));
                        assert(installation_total(sessions@, s.installation_id@, since_ms, now_ms) <= i64::MAX);
                    }
                    let old_row = rows.remove(f);
                    let total: i64 = old_row.seconds + seconds;
                    rows.insert(f, PlaytimeRow { seconds: total, ..old_row });
                    proof {
                        assert(rows@ =~= before.update(
                            f as int,
                            PlaytimeRow { seconds: (before[f as int].seconds + seconds) as i64, ..before[f as int] },
                        ));
                        assert forall|a: int, b: int| 0 <= a < b < rows@.len() implies (#[trigger] rows@[a]).installation_id@
                            != (#[trigger] rows@[b]).installation_id@ by {
                            assert(rows@[a].installation_id == before[a].installation_id);
                            assert(rows@[b].installation_id == before[b].installation_id);
                        }
                    }
                },
                None => {
                    rows.push(
                        PlaytimeRow {
                            installation_id: s.installation_id.clone(),
                            game_id: s.game_id.clone(),
                            seconds,
                        },
                    );
                    proof {
                        assert(rows@.take(before.len() as int) =~= before);
                        assert(row_index(before, s.installation_id@) is None);
                        assert forall|a: int, b: int| 0 <= a < b < rows@.len() implies (#[trigger] rows@[a]).installation_id@
                            != (#[trigger] rows@[b]).installation_id@ by {
                            if b == before.len() {
                                assert(rows@[a] == before[a]);
                            } else {
                                assert(rows@[a] == before[a]);
                                assert(rows@[b] == before[b]);
                            }
                        }
                    }
                },
            }
        }
        proof {
            states = states.push(rows@);
            assert(rows_after(
                states[k as int],
                sessions@[k as int],
                contribution(sessions@[k as int], since_ms, now_ms),
                states[k + 1],
            ));
            lemma_totals_after_one(sessions@, k as int, before, rows@, since_ms, now_ms);
        }
        k = k + 1;
    }
    assert(sessions@.take(k as int) =~= sessions@);
    rows
}

/// The totals invariant of the aggregation survives one more session.
proof fn lemma_totals_after_one(
    sessions: Seq<PlaytimeSessionRecord>,
    k: int,
    before: Seq<PlaytimeRow>,
    after: Seq<PlaytimeRow>,
    since: Option<i64>,
    now: i64,
)
    requires
        0 <= k < sessions.len(),
        rows_after(before, sessions[k], contribution(sessions[k], since, now), after),
        forall|i: int, j: int|
            0 <= i < j < before.len() ==> (#[trigger] before[i]).installation_id@ != (#[trigger] before[j]).installation_id@,
        forall|i: int|
            0 <= i < before.len() ==> (#[trigger] before[i]).seconds == installation_total(
                sessions.take(k),
                before[i].installation_id@,
                since,
                now,
            ),
        forall|id: Seq<char>|
            row_index(before, id) is None ==> #[trigger] installation_total(sessions.take(k), id, since, now) == 0,
        forall|id: Seq<char>| #[trigger] installation_total(sessions, id, since, now) <= i64::MAX,
    ensures
        forall|i: int|
            0 <= i < after.len() ==> (#[trigger] after[i]).seconds == installation_total(
                sessions.take(k + 1),
                after[i].installation_id@,
                since,
                now,
            ),
        forall|id: Seq<char>|
            row_index(after, id) is None ==> #[trigger] installation_total(sessions.take(k + 1), id, since, now) == 0,
{
    let s = sessions[k];
    let c = contribution(s, since, now);
    assert(sessions.take(k + 1).drop_last() =~= sessions.take(k));
    assert(sessions.take(k + 1).last() == s);
    assert forall|id: Seq<char>|
        #[trigger] installation_total(sessions.take(k + 1), id, since, now) == installation_total(
            sessions.take(k),
            id,
            since,
            now,
        ) + if s.installation_id@ == id {
            counted(c)
        } else {
            0
        } by {}
    if c > 0 {
        match row_index(before, s.installation_id@) {
            Some(f) => {
                assert(before[f].installation_id@ == s.installation_id@);
                assert forall|i: int| 0 <= i < after.len() implies (#[trigger] after[i]).seconds
                    == installation_total(sessions.take(k + 1), after[i].installation_id@, since, now) by {
                    if i != f {
                        assert(after[i] == before[i]);
                        assert(before[i].installation_id@ != before[f].installation_id@);
                    } else {
                        lemma_total_grows(sessions, k + 1, s.installation_id@, since, now);
                        assert(installation_total(sessions, s.installation_id@, since, now) <= i64::MAX);
                        assert(before[f].seconds + c == installation_total(
                            sessions.take(k + 1),
                            s.installation_id@,
                            since,
                            now,
                        ));
                    }
                }
                assert forall|id: Seq<char>| row_index(after, id) is None implies #[trigger] installation_total(
                    sessions.take(k + 1),
                    id,
                    since,
                    now,
                ) == 0 by {
                    if row_index(before, id) is Some {
                        let j = row_index(before, id).unwrap();
                        assert(after[j].installation_id == before[j].installation_id);
                    }
                    if id == s.installation_id@ {
                        assert(after[f].installation_id@ == id);
                    }
                }
            },
            None => {
                assert(installation_total(sessions.take(k), s.installation_id@, since, now) == 0);
                assert forall|i: int| 0 <= i < after.len() implies (#[trigger] after[i]).seconds
                    == installation_total(sessions.take(k + 1), after[i].installation_id@, since, now) by {
                    if i < before.len() {
                        assert(after[i] == after.take(before.len() as int)[i]);
                        assert(after[i] == before[i]);
                        if before[i].installation_id@ == s.installation_id@ {
                            assert(row_index(before, s.installation_id@) is Some);
                        }
                    }
                }
                assert forall|id: Seq<char>| row_index(after, id) is None implies #[trigger] installation_total(
                    sessions.take(k + 1),
                    id,
                    since,
                    now,
                ) == 0 by {
                    if row_index(before, id) is Some {
                        let j = row_index(before, id).unwrap();
                        assert(after[j] == after.take(before.len() as int)[j]);
                    }
                    if id == s.installation_id@ {
                        assert(after[before.len() as int].installation_id@ == id);
                    }
                }
            },
        }
    }
}

} // verus!
