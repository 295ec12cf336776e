use gwik::commands::{accepts_normalized, cd_command, is_affirmative};
use gwik::path::{file_name, is_within, join};

#[test]
fn affirmative_answers() {
    assert!(is_affirmative("y\n"));
    assert!(is_affirmative("  YES \n"));
    assert!(is_affirmative("Y"));
    assert!(!is_affirmative(""));
    assert!(!is_affirmative("no\n"));
    assert!(!is_affirmative("yes please"));
    assert!(accepts_normalized("yes"));
    assert!(!accepts_normalized("YES"));
}

#[test]
fn change_directory_instruction() {
    assert_eq!(cd_command("/tmp/a b"), "cd /tmp/a b");
}

#[test]
fn path_helpers() {
    assert_eq!(join("/a", "b"), "/a/b");
    assert_eq!(join("/a/", "b"), "/a/b");
    assert_eq!(join("/a", "/b"), "/b");
    assert_eq!(join("", "b"), "b");
    assert_eq!(file_name("/a/b/c"), "c");
    assert_eq!(file_name("c"), "c");
    assert!(is_within("/a/b/c", "/a/b"));
    assert!(is_within("/a/b", "/a/b"));
    assert!(!is_within("/a/bc", "/a/b"));
    assert!(is_within("/a/b", "/"));
}
