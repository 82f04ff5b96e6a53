use rmrs::naming::{check_exist, name_taken, prefix, update_file_name};

fn names(v: &[&str]) -> Vec<String> {
    v.iter().map(|s| s.to_string()).collect()
}

#[test]
fn prefix_stops_at_first_dot_after_start() {
    assert_eq!(prefix("a.txt"), 1);
    assert_eq!(prefix("archive.tar.gz"), 7);
    assert_eq!(prefix(".bashrc"), 7);
    assert_eq!(prefix(".config.bak"), 7);
    assert_eq!(prefix("README"), 6);
    assert_eq!(prefix(""), 0);
}

#[test]
fn update_file_name_inserts_number() {
    assert_eq!(update_file_name("a.txt", 1, &2), "a2.txt");
    assert_eq!(update_file_name("README", 6, &37), "README37");
    assert_eq!(update_file_name("x.tar.gz", 1, &65535), "x65535.tar.gz");
}

#[test]
fn name_taken_looks_for_equal_names() {
    let existing = names(&["a.txt", "b"]);
    assert!(name_taken(&existing, &"b".to_string()));
    assert!(!name_taken(&existing, &"a".to_string()));
}

#[test]
fn free_name_is_kept() {
    let existing = names(&["b.txt", "a2.txt"]);
    assert_eq!(check_exist("a.txt".to_string(), &existing).unwrap(), "a.txt");
    assert_eq!(check_exist("a.txt".to_string(), &Vec::new()).unwrap(), "a.txt");
}

#[test]
fn second_copy_gets_suffix_before_extension() {
    let existing = names(&["a.txt"]);
    assert_eq!(check_exist("a.txt".to_string(), &existing).unwrap(), "a2.txt");
}

#[test]
fn suffix_skips_taken_variants() {
    let existing = names(&["a.txt", "a2.txt", "a3.txt"]);
    let n = check_exist("a.txt".to_string(), &existing).unwrap();
    assert_eq!(n, "a4.txt");
    assert!(!existing.contains(&n));
}

#[test]
fn suffix_for_hidden_and_double_extension() {
    assert_eq!(check_exist(".bashrc".to_string(), &names(&[".bashrc"])).unwrap(), ".bashrc2");
    assert_eq!(check_exist("x.tar.gz".to_string(), &names(&["x.tar.gz"])).unwrap(), "x2.tar.gz");
    assert_eq!(check_exist("dir".to_string(), &names(&["dir", "dir2"])).unwrap(), "dir3");
}
