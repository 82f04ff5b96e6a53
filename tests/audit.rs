use rmrs::audit::{clear_line, refusal_line, trash_failed_line, trashed_line, undo_line};

const NOW: &str = "2024-05-06 07:08:09 +08:00:00";

#[test]
fn refusal_text() {
    assert_eq!(
        refusal_line(NOW, "u", "/home/u"),
        "2024-05-06 07:08:09 +08:00:00 u tried to delete directory \"/home/u\" while I refused: Forbid to delete ancestor\n"
    );
}

#[test]
fn trashed_text() {
    assert_eq!(
        trashed_line(NOW, "u", "file", "/w/a.txt", 0o644, "a2.txt"),
        "2024-05-06 07:08:09 +08:00:00 u deleted file \"/w/a.txt\" $644$ => a2.txt\n"
    );
    assert_eq!(
        trash_failed_line(NOW, "u", "file", "/w/a.txt", "Permission denied"),
        "2024-05-06 07:08:09 +08:00:00 u tried to delete file \"/w/a.txt\" while an error occurred: Permission denied\n"
    );
}

#[test]
fn undo_and_clear_text() {
    assert_eq!(undo_line(NOW, "u", None), "2024-05-06 07:08:09 +08:00:00 u undid last operation successfully\n");
    assert_eq!(
        undo_line(NOW, "u", Some("entity not found")),
        "2024-05-06 07:08:09 +08:00:00 u tried to undo last operation while an error occurred: entity not found\n"
    );
    assert_eq!(clear_line(NOW, "u", None), "2024-05-06 07:08:09 +08:00:00 u cleaned trash can\n");
    assert_eq!(
        clear_line(NOW, "u", Some("busy")),
        "2024-05-06 07:08:09 +08:00:00 u tried to clean trash can while an error occurred: busy\n"
    );
}
