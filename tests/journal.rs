use rmrs::error::ErrorKind;
use rmrs::journal::{parse_journal, parse_line, paths_fit_exec, render_line, UndoRecord};

fn rec(t: &str, o: &str, p: u32) -> UndoRecord {
    UndoRecord { trash_path: t.to_string(), original: o.to_string(), perms: p }
}

#[test]
fn render_line_format() {
    let r = rec("/home/u/.rtrash/files/a2.txt", "/home/u/work/a.txt", 0o644);
    assert_eq!(render_line(&r), "/home/u/.rtrash/files/a2.txt >> /home/u/work/a.txt $644$\n");
    assert_eq!(render_line(&rec("/t/x", "/y", 0o7)), "/t/x >> /y $007$\n");
}

#[test]
fn parse_line_reads_rendered_line() {
    let r = parse_line("/t/files/my dir >> /home/u/my dir $755$").unwrap();
    assert_eq!(r.trash_path, "/t/files/my dir");
    assert_eq!(r.original, "/home/u/my dir");
    assert_eq!(r.perms, 0o755);
}

#[test]
fn parse_line_rejects_malformed() {
    assert!(parse_line("garbage").is_none());
    assert!(parse_line("/a /b $644$").is_none());
    assert!(parse_line("/a >> /b $648$").is_none());
    assert!(parse_line("/a >> /b $644").is_none());
}

#[test]
fn journal_round_trip() {
    let rs = vec![
        rec("/t/files/a.txt", "/w/a.txt", 0o600),
        rec("/t/files/a2.txt", "/w/sub/a.txt", 0o644),
        rec("/t/files/d", "/w/d", 0o755),
    ];
    let mut text = String::new();
    for r in &rs {
        text.push_str(&render_line(r));
    }
    let back = parse_journal(&text).unwrap();
    assert_eq!(back.len(), 3);
    for (a, b) in rs.iter().zip(back.iter()) {
        assert_eq!(a.trash_path, b.trash_path);
        assert_eq!(a.original, b.original);
        assert_eq!(a.perms, b.perms);
    }
}

#[test]
fn empty_journal_has_no_entries() {
    assert_eq!(parse_journal("").unwrap().len(), 0);
}

#[test]
fn malformed_journal_is_parse_error() {
    let e = parse_journal("/t/a >> /w/a $644$\nbroken\n").unwrap_err();
    assert_eq!(e.kind, ErrorKind::JournalParse);
    assert_eq!(e.code(), -12);
}

#[test]
fn paths_that_cannot_be_read_back() {
    assert!(paths_fit_exec("/t/files/a b", "/w/a b"));
    assert!(paths_fit_exec("/t/files/a>b", "/w/x >> y"));
    assert!(!paths_fit_exec("/t/files/x >> y", "/w/x >> y"));
    assert!(paths_fit_exec("/t/files/x >", "/w/x >"));
    assert!(!paths_fit_exec("/t/files/x >>", "/w/x >>"));
    assert!(!paths_fit_exec("/t/files/a\nb", "/w/c"));
    assert!(!paths_fit_exec("/t/files/c", "/w/a\nb"));
}
