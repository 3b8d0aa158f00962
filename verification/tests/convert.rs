use zongflow::convert::is_path_allowed;

#[test]
fn paths_inside_home_are_allowed() {
    assert!(is_path_allowed("/home/user/docs/a.txt", Some("/home/user")));
    assert!(is_path_allowed("/home/user", Some("/home/user")));
    assert!(is_path_allowed("/home/user/", Some("/home/user")));
}

#[test]
fn paths_outside_home_are_refused() {
    assert!(!is_path_allowed("/etc/passwd", Some("/home/user")));
    assert!(!is_path_allowed("/home/user2/a.txt", Some("/home/user")));
}

#[test]
fn any_path_is_allowed_without_home() {
    assert!(is_path_allowed("/etc/passwd", None));
}
