use wslshim::translate::needs_existence_probe;
use wslshim::translate::translate_path_to_unix;
use wslshim::translate::translate_path_to_win;

#[test]
fn plain_token_unchanged() {
    assert_eq!(translate_path_to_unix(String::from("status"), false), "status");
    assert_eq!(translate_path_to_unix(String::from("status"), true), "status");
    assert_eq!(translate_path_to_unix(String::from(""), false), "");
    assert_eq!(translate_path_to_unix(String::from("http://host:80/x"), false), "http://host:80/x");
}

#[test]
fn drive_path_translated() {
    assert_eq!(translate_path_to_unix(String::from("C:\\Users\\x"), false), "/mnt/c/Users/x");
    assert_eq!(translate_path_to_unix(String::from("C:\\repo\\file.txt"), false), "/mnt/c/repo/file.txt");
    assert_eq!(translate_path_to_unix(String::from("D:\\"), false), "/mnt/d/");
}

#[test]
fn drive_letter_lower_cased_either_way() {
    assert_eq!(translate_path_to_unix(String::from("c:\\Users\\x"), false), "/mnt/c/Users/x");
    assert_eq!(translate_path_to_unix(String::from("Z:\\a"), false), "/mnt/z/a");
    assert_eq!(translate_path_to_unix(String::from("z:\\a"), false), "/mnt/z/a");
}

#[test]
fn misplaced_colon_backslash_unchanged() {
    assert_eq!(translate_path_to_unix(String::from("foo:\\bar"), false), "foo:\\bar");
    assert_eq!(translate_path_to_unix(String::from("xy:\\z"), true), "xy:\\z");
    assert_eq!(translate_path_to_unix(String::from("--opt=C:\\x"), true), "--opt=C:\\x");
    assert_eq!(translate_path_to_unix(String::from(":\\x"), true), ":\\x");
}

#[test]
fn relative_path_translated_only_when_entry_exists() {
    assert_eq!(translate_path_to_unix(String::from("src\\lib.rs"), true), "src/lib.rs");
    assert_eq!(translate_path_to_unix(String::from("src\\lib.rs"), false), "src\\lib.rs");
    assert_eq!(translate_path_to_unix(String::from("dir\\sub\\f"), true), "dir/sub/f");
}

#[test]
fn early_backslash_never_translated() {
    // A backslash at position 0 or 1 leaves no room for a name before the
    // separator, so the token is not taken for a relative path even when an
    // entry of that literal name exists.
    assert_eq!(translate_path_to_unix(String::from("a\\b"), true), "a\\b");
    assert_eq!(translate_path_to_unix(String::from("\\server\\share"), true), "\\server\\share");
}

#[test]
fn probe_asked_only_for_relative_candidates() {
    assert!(needs_existence_probe("src\\lib.rs"));
    assert!(needs_existence_probe("dir\\sub\\f"));
    assert!(!needs_existence_probe("C:\\Users\\x"));
    assert!(!needs_existence_probe("foo:\\bar"));
    assert!(!needs_existence_probe("a\\b"));
    assert!(!needs_existence_probe("status"));
    assert!(!needs_existence_probe(""));
}

#[test]
fn mount_path_translated_back() {
    assert_eq!(translate_path_to_win("/mnt/c/foo/bar"), "C:\\foo\\bar");
    assert_eq!(translate_path_to_win("/mnt/d/x"), "D:\\x");
    assert_eq!(translate_path_to_win("/mnt/c/"), "C:\\");
    assert_eq!(translate_path_to_win("/mnt/c/repo/file.txt: modified"), "C:\\repo\\file.txt: modified");
}

#[test]
fn malformed_or_embedded_mount_unchanged() {
    assert_eq!(translate_path_to_win("/mnt/cX/foo"), "/mnt/cX/foo");
    assert_eq!(translate_path_to_win("x/mnt/c/y"), "x/mnt/c/y");
    assert_eq!(translate_path_to_win("/mnt/"), "/mnt/");
    assert_eq!(translate_path_to_win("/mnt/c"), "/mnt/c");
    assert_eq!(translate_path_to_win(""), "");
    assert_eq!(translate_path_to_win("no paths here"), "no paths here");
}

#[test]
fn absolute_round_trip() {
    let original = "C:\\repo\\file.txt";
    let posix = translate_path_to_unix(String::from(original), false);
    assert_eq!(translate_path_to_win(posix.as_str()), original);

    let root = "D:\\";
    let posix_root = translate_path_to_unix(String::from(root), false);
    assert_eq!(translate_path_to_win(posix_root.as_str()), root);
}

#[test]
fn lower_case_drive_does_not_round_trip() {
    // The reverse direction re-cases the drive letter upward, so only
    // upper-case drive letters come back identical.
    let posix = translate_path_to_unix(String::from("c:\\x"), false);
    assert_eq!(translate_path_to_win(posix.as_str()), "C:\\x");
}
