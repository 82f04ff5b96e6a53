use rmrs::error::{ErrorKind, IoKind};
use rmrs::undo::{begin_undo, undo_step, UndoStep};

#[test]
fn undo_restores_in_order_then_finishes() {
    assert_eq!(undo_step(2, 0, None), UndoStep::Restore(0));
    assert_eq!(undo_step(2, 1, None), UndoStep::Restore(1));
    assert_eq!(undo_step(2, 2, None), UndoStep::Finish);
    assert_eq!(undo_step(0, 0, None), UndoStep::Finish);
}

#[test]
fn undo_missing_entry_drops_journal() {
    assert_eq!(
        undo_step(3, 1, Some(IoKind::NotFound)),
        UndoStep::Abort { kind: IoKind::NotFound, remove_journal: true }
    );
}

#[test]
fn undo_other_failure_keeps_journal() {
    assert_eq!(
        undo_step(3, 0, Some(IoKind::PermissionDenied)),
        UndoStep::Abort { kind: IoKind::PermissionDenied, remove_journal: false }
    );
    assert_eq!(
        undo_step(3, 2, Some(IoKind::Other)),
        UndoStep::Abort { kind: IoKind::Other, remove_journal: false }
    );
}

#[test]
fn undo_without_journal_fails_not_found() {
    let e = begin_undo(Err(IoKind::NotFound)).unwrap_err();
    assert_eq!(e.kind, ErrorKind::NotFound);
    assert_eq!(e.code(), -1);
}

#[test]
fn undo_reads_journal_entries() {
    let v = begin_undo(Ok("/t/files/a.txt >> /w/a.txt $640$\n".to_string())).unwrap();
    assert_eq!(v.len(), 1);
    assert_eq!(v[0].trash_path, "/t/files/a.txt");
    assert_eq!(v[0].original, "/w/a.txt");
    assert_eq!(v[0].perms, 0o640);
    let e = begin_undo(Ok("nonsense\n".to_string())).unwrap_err();
    assert_eq!(e.kind, ErrorKind::JournalParse);
}
