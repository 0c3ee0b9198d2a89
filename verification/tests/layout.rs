use orbis::paths::{backup_dir, backups_dir, db_path, logs_dir};

fn data() -> Option<Vec<String>> {
    Some(vec!["C:".to_owned(), "Users".to_owned(), "me".to_owned(), "orbis".to_owned()])
}

fn under(parts: &[&str]) -> Option<Vec<String>> {
    let mut all = data().unwrap();
    all.extend(parts.iter().map(|p| (*p).to_owned()));
    Some(all)
}

#[test]
fn layout_hangs_off_the_app_data_dir() {
    assert_eq!(logs_dir(data()), under(&["logs"]));
    assert_eq!(db_path(data()), under(&["orbis.db"]));
    assert_eq!(backups_dir(data()), under(&["backups"]));
    assert_eq!(backup_dir(data(), "inst-1", "bk-2"), under(&["backups", "inst-1", "bk-2"]));
}

#[test]
fn nothing_resolves_without_a_data_dir() {
    assert_eq!(logs_dir(None), None);
    assert_eq!(db_path(None), None);
    assert_eq!(backups_dir(None), None);
    assert_eq!(backup_dir(None, "a", "b"), None);
}
