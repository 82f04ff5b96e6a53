use rmrs::paths::{choose_location, conv_to_abs, is_valid_path};

#[test]
fn relative_paths_join_working_directory() {
    let v = conv_to_abs(vec!["a/b", "/x/../y", "./c", "../d", "..", "."], "/home/u");
    assert_eq!(v, vec!["/home/u/a/b", "/y", "/home/u/c", "/home/d", "/home", "/home/u"]);
}

#[test]
fn absolute_path_stays() {
    assert_eq!(conv_to_abs(vec!["/etc/hosts"], "/tmp"), vec!["/etc/hosts"]);
    assert!(conv_to_abs(vec![], "/tmp").is_empty());
    assert_eq!(conv_to_abs(vec!["..", "x"], "/"), vec!["/", "/x"]);
}

#[test]
fn location_shape() {
    assert_eq!(is_valid_path("/home/u/.rtrash").unwrap(), true);
    assert_eq!(is_valid_path("/data/trash_1").unwrap(), true);
    assert_eq!(is_valid_path("relative/path").unwrap(), false);
    assert_eq!(is_valid_path("/home/u/").unwrap(), false);
    assert_eq!(is_valid_path("").unwrap(), false);
}

#[test]
fn first_run_location() {
    assert_eq!(choose_location("/srv/trash", "/home/u").unwrap(), "/srv/trash");
    assert_eq!(choose_location("nope", "/home/u").unwrap(), "/home/u/.rtrash");
}
