use rmrs::size::{browse_line, friendly_size};

#[test]
fn friendly_size_examples() {
    assert_eq!(friendly_size(500), "500.00 Bytes");
    assert_eq!(friendly_size(1500), "1.50 KB");
    assert_eq!(friendly_size(2_500_000), "2.50 MB");
}

#[test]
fn friendly_size_edges() {
    assert_eq!(friendly_size(0), "0.00 Bytes");
    assert_eq!(friendly_size(999), "999.00 Bytes");
    assert_eq!(friendly_size(1000), "1.00 KB");
    assert_eq!(friendly_size(1_234_567_890), "1.23 GB");
    assert_eq!(friendly_size(4_000_000_000_000), "4.00 TB");
    assert_eq!(friendly_size(7_250_000_000_000_000), "7.25 PB");
    assert_eq!(friendly_size(u64::MAX), "18446.74 PB");
}

#[test]
fn friendly_size_rounds_to_hundredths() {
    assert_eq!(friendly_size(1_006), "1.01 KB");
    assert_eq!(friendly_size(1_004), "1.00 KB");
    assert_eq!(friendly_size(999_999), "1000.00 KB");
}

#[test]
fn browse_line_shows_perms_name_size() {
    assert_eq!(browse_line(0o644, "a.txt", 1500), "$644 a.txt 1.50 KB");
    assert_eq!(browse_line(0o7, "d", 12), "$007 d 12.00 Bytes");
}
