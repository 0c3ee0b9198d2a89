use orbis::commands::{playtime_for, playtime_result, PlaytimeDto, PlaytimeScope};
use orbis::installation::{AddedVia, InstallationRecord, PersistedStatus};
use orbis::model::{GameRuntimeStatus, Region};
use orbis::playtime::{
    aggregate_playtime, duration_sec, overlap_sec, playtime_totals_fit, session_id, tracked_event, PlaytimeRow,
    PlaytimeSessionRecord, PlaytimeTracker, SessionWrite, TrackedEvent,
};
use orbis::process::{path_matches, ProcessEntry, ProcessSnapshot};
use orbis::runtime::{is_running, poll_step, runtime_changes, runtime_states, RuntimeChange, RuntimeState};

const TS: i64 = 1_758_000_000_000;

fn snapshot_of(entries: &[(&str, u32)]) -> ProcessSnapshot {
    ProcessSnapshot::from_entries(
        entries
            .iter()
            .map(|(path, pid)| ProcessEntry { pid: *pid, exe_path: (*path).to_owned() })
            .collect(),
    )
}

fn record(id: &str, exe: &str) -> InstallationRecord {
    InstallationRecord {
        id: id.to_owned(),
        game_id: "sample-game".to_owned(),
        region: Region::Cn,
        install_path: "C:/sample".to_owned(),
        executable_path: exe.to_owned(),
        local_version: None,
        version_norm: None,
        version_source: None,
        status: PersistedStatus::Installed,
        added_via: AddedVia::Manual,
        created_at: TS,
        updated_at: TS,
    }
}

// ── process snapshot ───────────────────────────────────────────────────

#[test]
fn exact_path_matches() {
    let snapshot = snapshot_of(&[("C:/Games/Sample/game.exe", 100)]);
    assert_eq!(snapshot.find_running("C:/Games/Sample/game.exe"), Some(100));
}

#[test]
fn prefix_matching_stops_at_a_path_separator() {
    let snapshot = snapshot_of(&[("C:\\Games\\Sample\\game.exe", 7)]);
    assert_eq!(snapshot.find_running("C:\\Games\\Sample\\game.exe"), Some(7));
    assert_eq!(snapshot.find_running("C:\\Games\\Sample\\"), Some(7));
    assert_eq!(snapshot.find_running("C:\\Games\\Sample"), Some(7));
    let sibling = snapshot_of(&[("C:\\Games\\Sample2\\game.exe", 8)]);
    assert_eq!(sibling.find_running("C:\\Games\\Sample"), None);
}

#[test]
fn unrelated_paths_do_not_match() {
    let snapshot = snapshot_of(&[("C:/Games/Other/game.exe", 100)]);
    assert_eq!(snapshot.find_running("C:/Games/Sample/game.exe"), None);
    assert_eq!(snapshot.find_running("C:/Games/Other/game.exe.bak"), None);
}

#[test]
fn sibling_directories_sharing_a_prefix_do_not_match() {
    let snapshot = snapshot_of(&[("C:\\Games\\Endfield2\\game.exe", 11), ("C:\\Games\\Endfield\\game.exe", 22)]);
    assert_eq!(snapshot.find_running("C:\\Games\\Endfield\\"), Some(22));
    assert_eq!(snapshot.find_running("C:\\Games\\Endfield2\\"), Some(11));
    assert_eq!(snapshot.find_running("C:\\Games\\Endfield2\\game.exe"), Some(11));
    let third = ProcessSnapshot::from_entries(vec![ProcessEntry {
        pid: 33,
        exe_path: "C:\\Games\\Endfield-Extra\\game.exe".to_owned(),
    }]);
    assert_eq!(third.find_running("C:\\Games\\Endfield\\"), None);
}

#[test]
fn path_form_differences_do_not_cause_false_negatives() {
    let snapshot = snapshot_of(&[("C:\\Games\\Foo\\game.exe", 5)]);
    assert_eq!(snapshot.find_running("C:/Games/Foo/game.exe"), Some(5));
    assert_eq!(snapshot.find_running(r"\\?\C:\Games\Foo\game.exe"), Some(5));
    let verbatim = snapshot_of(&[(r"\\?\C:\Games\Foo\game.exe", 5)]);
    assert_eq!(verbatim.find_running("C:\\Games\\Foo\\game.exe"), Some(5));
}

#[test]
fn empty_input_never_matches_everything() {
    let snapshot = snapshot_of(&[("C:/Games/Sample/game.exe", 100)]);
    assert_eq!(snapshot.find_running(""), None);
    assert_eq!(ProcessSnapshot::empty().find_running("C:/a.exe"), None);
    assert!(!path_matches("C:/Games/Sample/game.exe", "", false));
    assert!(!path_matches("C:/Games/Sample/game.exe", "", true));
}

#[test]
fn letter_case_is_ignored_only_where_paths_ignore_it() {
    let exact = snapshot_of(&[("C:\\Games\\Foo\\Game.exe", 5)]);
    assert_eq!(exact.find_running("c:/games/foo/game.exe"), None);
    let folding = exact.with_case_folding(true);
    assert_eq!(folding.find_running("c:/games/foo/game.exe"), Some(5));
    assert_eq!(folding.find_running("C:\\GAMES\\FOO"), Some(5));
    assert!(path_matches("C:/A/B.EXE", "c:\\a\\b.exe", true));
    assert!(!path_matches("C:/A/B.EXE", "c:\\a\\b.exe", false));
}

#[test]
fn processes_without_a_path_are_left_out_of_the_snapshot() {
    let snapshot = ProcessSnapshot::from_listing(vec![
        (1, None),
        (2, Some(String::new())),
        (3, Some("C:/Games/Sample/game.exe".to_owned())),
    ]);
    assert_eq!(snapshot.len(), 1);
    assert_eq!(snapshot.entries()[0].pid, 3);
    assert!(!snapshot.is_empty());
}

// ── runtime states ─────────────────────────────────────────────────────

#[test]
fn a_running_executable_overrides_the_stored_status() {
    let records = vec![record("i1", "C:/Games/A/a.exe"), record("i2", "C:/Games/B/b.exe")];
    let snapshot = snapshot_of(&[("C:/Games/A/a.exe", 42)]);
    let states = runtime_states(&records, &snapshot);
    assert_eq!(
        states,
        vec![
            RuntimeState { installation_id: "i1".to_owned(), status: GameRuntimeStatus::Running, pid: Some(42) },
            RuntimeState { installation_id: "i2".to_owned(), status: GameRuntimeStatus::Installed, pid: None },
        ]
    );
}

#[test]
fn the_first_poll_is_a_baseline_and_an_unchanged_poll_is_quiet() {
    let records = vec![record("i1", "C:/Games/A/a.exe")];
    let running = runtime_states(&records, &snapshot_of(&[("C:/Games/A/a.exe", 42)]));
    assert!(runtime_changes(&None, &running).is_empty());
    assert!(runtime_changes(&Some(running.clone()), &running).is_empty());
}

#[test]
fn an_exit_is_reported_with_the_pid_that_went_away() {
    let records = vec![record("i1", "C:/Games/A/a.exe"), record("i2", "C:/Games/B/b.exe")];
    let before = runtime_states(&records, &snapshot_of(&[("C:/Games/A/a.exe", 42)]));
    let after = runtime_states(&records, &ProcessSnapshot::empty());
    assert_eq!(runtime_changes(&Some(before.clone()), &after), vec![RuntimeChange { index: 0, exited_pid: Some(42) }]);
    assert_eq!(runtime_changes(&Some(after), &before), vec![RuntimeChange { index: 0, exited_pid: None }]);
}

#[test]
fn a_new_installation_counts_as_a_change() {
    let one = runtime_states(&[record("i1", "C:/a.exe")], &ProcessSnapshot::empty());
    let two = runtime_states(&[record("i1", "C:/a.exe"), record("i2", "C:/b.exe")], &ProcessSnapshot::empty());
    assert_eq!(runtime_changes(&Some(one), &two), vec![RuntimeChange { index: 1, exited_pid: None }]);
}

// ── play time ──────────────────────────────────────────────────────────

#[test]
fn a_process_appearing_opens_a_session_and_disappearing_closes_it() {
    let mut tracker = PlaytimeTracker::new();
    let open = tracker.decide("i1", true, TS, 30).expect("a new process opens a session");
    assert_eq!(
        tracked_event("i1", &open),
        Some(TrackedEvent::Started { installation_id: "i1".to_owned(), session_id: session_id("i1", TS) })
    );
    tracker.apply("i1", &open);
    assert_eq!(tracker.open_count(), 1);

    let close = tracker.decide("i1", false, TS + 90_000, 30).expect("a gone process closes it");
    assert_eq!(
        close,
        SessionWrite::Close { session_id: session_id("i1", TS), ended_at: TS + 90_000, duration_sec: 90 }
    );
    assert_eq!(
        tracked_event("i1", &close),
        Some(TrackedEvent::Ended {
            installation_id: "i1".to_owned(),
            session_id: session_id("i1", TS),
            duration_sec: 90,
        })
    );
    tracker.apply("i1", &close);
    assert_eq!(tracker.open_count(), 0);
    assert_eq!(tracker.decide("i1", false, TS + 100_000, 30), None);
}

#[test]
fn checkpoints_are_written_at_the_configured_interval() {
    let mut tracker = PlaytimeTracker::new();
    let open = tracker.decide("i1", true, TS, 30).unwrap();
    tracker.apply("i1", &open);
    assert_eq!(tracker.decide("i1", true, TS + 29_000, 30), None);
    let checkpoint = tracker.decide("i1", true, TS + 30_000, 30).unwrap();
    assert_eq!(
        checkpoint,
        SessionWrite::Checkpoint { session_id: session_id("i1", TS), checkpoint_at: TS + 30_000, duration_sec: 30 }
    );
    assert_eq!(tracked_event("i1", &checkpoint), None);
    tracker.apply("i1", &checkpoint);
    assert_eq!(tracker.sessions()[0].checkpoint_at, TS + 30_000);
    assert_eq!(tracker.decide("i1", true, TS + 59_000, 30), None);
}

#[test]
fn forgetting_open_sessions_starts_over() {
    let mut tracker = PlaytimeTracker::new();
    let open = tracker.decide("i1", true, TS, 30).unwrap();
    tracker.apply("i1", &open);
    tracker.forget_open_sessions();
    assert_eq!(tracker.open_count(), 0);
}

#[test]
fn a_session_spanning_midnight_only_counts_the_part_inside_the_window() {
    let start = TS;
    let end = TS + 4 * 3_600_000;
    let window_start = TS + 3_600_000;
    assert_eq!(overlap_sec(start, end, window_start, end + 1), 3 * 3_600);
    assert_eq!(overlap_sec(start, end, end, end + 1_000), 0);
    assert_eq!(overlap_sec(start, end, start - 10_000, start), 0);
    assert_eq!(overlap_sec(start, end, start - 10_000, end + 10_000), 4 * 3_600);
}

#[test]
fn durations_are_whole_seconds_and_never_negative() {
    assert_eq!(duration_sec(TS, TS + 90_999), 90);
    assert_eq!(duration_sec(TS, TS - 5_000), 0);
    assert_eq!(session_id("i1", TS), "i1@1758000000000");
}

fn session(installation_id: &str, started_at: i64, ended_at: Option<i64>) -> PlaytimeSessionRecord {
    PlaytimeSessionRecord {
        id: session_id(installation_id, started_at),
        installation_id: installation_id.to_owned(),
        game_id: "sample-game".to_owned(),
        started_at,
        checkpoint_at: started_at,
        ended_at,
        duration_sec: 0,
    }
}

#[test]
fn sessions_add_up_per_installation_in_first_seen_order() {
    let sessions = vec![
        session("i2", TS, Some(TS + 60_000)),
        session("i1", TS, Some(TS + 30_000)),
        session("i2", TS + 100_000, Some(TS + 110_000)),
        session("i3", TS, Some(TS)),
    ];
    let rows = aggregate_playtime(&sessions, None, TS + 200_000);
    assert_eq!(rows.len(), 2, "an empty session adds no row");
    assert_eq!((rows[0].installation_id.as_str(), rows[0].seconds), ("i2", 70));
    assert_eq!((rows[1].installation_id.as_str(), rows[1].seconds), ("i1", 30));

    let open = vec![session("i1", TS, None)];
    assert_eq!(aggregate_playtime(&open, None, TS + 45_000)[0].seconds, 45);
    assert_eq!(aggregate_playtime(&open, Some(TS + 40_000), TS + 45_000)[0].seconds, 5);
}

fn row(id: &str, seconds: i64) -> PlaytimeRow {
    PlaytimeRow { installation_id: id.to_owned(), game_id: "sample-game".to_owned(), seconds }
}

#[test]
fn an_installation_shows_its_three_windows() {
    let today = vec![row("i1", 10)];
    let week = vec![row("i1", 100), row("i2", 5)];
    let total = vec![row("i1", 1000), row("i2", 50)];
    assert_eq!(
        playtime_for(&today, &week, &total, "i1"),
        PlaytimeDto { today_sec: 10, week_sec: 100, total_sec: 1000 }
    );
    assert_eq!(playtime_for(&today, &week, &total, "i2"), PlaytimeDto { today_sec: 0, week_sec: 5, total_sec: 50 });
    assert_eq!(playtime_for(&today, &week, &total, "i9"), PlaytimeDto { today_sec: 0, week_sec: 0, total_sec: 0 });
}

#[test]
fn a_playtime_answer_sums_its_rows() {
    let result = playtime_result(PlaytimeScope::Week, vec![row("i1", 100), row("i2", 5)]);
    assert_eq!(result.scope, "week");
    assert_eq!(result.total_sec, 105);
    assert_eq!(result.per_installation.len(), 2);
    assert_eq!(result.per_installation[1].installation_id, "i2");
    assert_eq!(result.per_installation[1].seconds, 5);
    assert_eq!(playtime_result(PlaytimeScope::Total, vec![]).total_sec, 0);
}

#[test]
fn totals_that_fit_are_aggregated_and_others_are_flagged() {
    let sessions = vec![session("i1", TS, Some(TS + 60_000)), session("i2", TS, Some(TS + 1_000))];
    assert!(playtime_totals_fit(&sessions, None, TS + 100_000));
    let huge = vec![session("i1", i64::MIN, Some(i64::MAX)); 600];
    assert!(!playtime_totals_fit(&huge, None, 0));
    assert!(playtime_totals_fit(&huge[..1].to_vec(), None, 0));
}

#[test]
fn a_poll_without_states_keeps_the_baseline_and_reports_nothing() {
    let records = vec![record("i1", "C:/Games/A/a.exe")];
    let running = runtime_states(&records, &snapshot_of(&[("C:/Games/A/a.exe", 42)]));
    let (baseline, changes) = poll_step(Some(running.clone()), None);
    assert_eq!(baseline, Some(running));
    assert!(changes.is_empty());
    let (baseline, changes) = poll_step(None, None);
    assert_eq!(baseline, None);
    assert!(changes.is_empty());
}

#[test]
fn a_poll_with_states_reports_the_changes_and_becomes_the_baseline() {
    let records = vec![record("i1", "C:/Games/A/a.exe"), record("i2", "C:/Games/B/b.exe")];
    let before = runtime_states(&records, &snapshot_of(&[("C:/Games/A/a.exe", 42)]));
    let after = runtime_states(&records, &ProcessSnapshot::empty());
    let (baseline, changes) = poll_step(None, Some(before.clone()));
    assert_eq!(baseline, Some(before.clone()));
    assert!(changes.is_empty());
    let (baseline, changes) = poll_step(baseline, Some(after.clone()));
    assert_eq!(baseline, Some(after.clone()));
    assert_eq!(changes, vec![RuntimeChange { index: 0, exited_pid: Some(42) }]);
    let (baseline, changes) = poll_step(baseline, Some(after.clone()));
    assert_eq!(baseline, Some(after));
    assert!(changes.is_empty());
}

#[test]
fn running_means_a_state_of_that_installation_with_a_pid() {
    let states = vec![
        RuntimeState { installation_id: "i1".to_owned(), status: GameRuntimeStatus::Running, pid: Some(42) },
        RuntimeState { installation_id: "i2".to_owned(), status: GameRuntimeStatus::Running, pid: None },
    ];
    assert!(is_running(&states, "i1"));
    assert!(!is_running(&states, "i2"));
    assert!(!is_running(&states, "i3"));
    assert!(!is_running(&[], "i1"));
}
