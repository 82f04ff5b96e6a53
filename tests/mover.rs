use rmrs::audit::forever_line;
use rmrs::error::ErrorKind;
use rmrs::mover::{file_name, get_type, permission_bits, trash_mode, Batch, Plan};

fn batch(forever: bool, taken: &[&str]) -> Batch {
    Batch::new(
        "/t/files".to_string(),
        "/home/u/proj/src".to_string(),
        forever,
        taken.iter().map(|s| s.to_string()).collect(),
    )
}

#[test]
fn ancestor_directory_is_refused() {
    let b = batch(false, &[]);
    assert!(matches!(b.plan("/home/u/proj", true).unwrap(), Plan::Refuse));
    assert!(matches!(b.plan("/home/u/proj/src", true).unwrap(), Plan::Refuse));
    let bf = batch(true, &[]);
    assert!(matches!(bf.plan("/home/u", true).unwrap(), Plan::Refuse));
}

#[test]
fn unrelated_directory_is_moved() {
    let b = batch(false, &[]);
    match b.plan("/var/tmp/old", true).unwrap() {
        Plan::MoveTo { name, dest } => {
            assert_eq!(name, "old");
            assert_eq!(dest, "/t/files/old");
        }
        _ => panic!("expected a move"),
    }
    assert!(matches!(batch(true, &[]).plan("/var/tmp/old", true).unwrap(), Plan::RemoveForever));
}

#[test]
fn guard_applies_to_directories_only() {
    let b = batch(false, &[]);
    assert!(matches!(b.plan("/home/u/proj", false).unwrap(), Plan::MoveTo { .. }));
}

#[test]
fn trashing_same_name_twice_gets_suffix() {
    let mut b = batch(false, &[]);
    let first = match b.plan("/home/u/a.txt", false).unwrap() {
        Plan::MoveTo { name, .. } => name,
        _ => panic!("expected a move"),
    };
    assert_eq!(first, "a.txt");
    b.record_move(first);
    match b.plan("/home/u/a.txt", false).unwrap() {
        Plan::MoveTo { name, dest } => {
            assert_eq!(name, "a2.txt");
            assert_eq!(dest, "/t/files/a2.txt");
        }
        _ => panic!("expected a move"),
    }
}

#[test]
fn forever_on_missing_path_is_logged_and_batch_goes_on() {
    let b = batch(true, &[]);
    assert!(matches!(b.plan("/nonexistent/thing", false).unwrap(), Plan::RemoveForever));
    let line = forever_line(
        "2024-01-01 00:00:00 +08:00:00",
        "u",
        "undefined type",
        "/nonexistent/thing",
        Some("No such file or directory (os error 2)"),
    );
    assert_eq!(
        line,
        "2024-01-01 00:00:00 +08:00:00 u tried to permanently delete undefined type \"/nonexistent/thing\" while an error occurred: No such file or directory (os error 2)\n"
    );
    assert!(matches!(b.plan("/home/u/next.txt", false).unwrap(), Plan::RemoveForever));
}

#[test]
fn root_has_no_name_to_store() {
    let e = batch(false, &[]).plan("/", false).unwrap_err();
    assert_eq!(e.kind, ErrorKind::PathResolution);
    assert_eq!(e.code(), -11);
}

#[test]
fn file_name_is_last_component() {
    assert_eq!(file_name("/a/b/c.txt"), "c.txt");
    assert_eq!(file_name("/d"), "d");
    assert_eq!(file_name("plain"), "plain");
    assert_eq!(file_name("/"), "");
}

#[test]
fn kinds_and_modes() {
    assert_eq!(get_type(true, false), "directory");
    assert_eq!(get_type(false, true), "file");
    assert_eq!(get_type(false, false), "undefined type");
    assert_eq!(permission_bits(0o100644), 0o644);
    assert_eq!(permission_bits(0o40755), 0o755);
    assert_eq!(trash_mode(true), 0o600);
    assert_eq!(trash_mode(false), 0);
}

#[test]
fn name_that_breaks_journal_is_not_moved() {
    let b = batch(false, &[]);
    match b.plan("/w/x >> y", false).unwrap() {
        Plan::Unrecordable { dest } => assert_eq!(dest, "/t/files/x >> y"),
        _ => panic!("expected the target to be left in place"),
    }
}

#[test]
fn finished_move_logs_journals_and_takes_name() {
    let mut b = batch(false, &[]);
    let (line, entry) = b.finish_move(
        "NOW",
        "u",
        "file",
        "/w/a.txt",
        "a.txt".to_string(),
        "/t/files/a.txt",
        Ok(0o100644),
    );
    assert_eq!(line, "NOW u deleted file \"/w/a.txt\" $644$ => a.txt\n");
    assert_eq!(entry.unwrap(), "/t/files/a.txt >> /w/a.txt $644$\n");
    assert_eq!(b.taken, vec!["a.txt".to_string()]);
}

#[test]
fn failed_move_logs_only() {
    let mut b = batch(false, &["z"]);
    let (line, entry) = b.finish_move(
        "NOW",
        "u",
        "file",
        "/w/a.txt",
        "a.txt".to_string(),
        "/t/files/a.txt",
        Err("Permission denied (os error 13)".to_string()),
    );
    assert_eq!(line, "NOW u tried to delete file \"/w/a.txt\" while an error occurred: Permission denied (os error 13)\n");
    assert!(entry.is_none());
    assert_eq!(b.taken, vec!["z".to_string()]);
}
