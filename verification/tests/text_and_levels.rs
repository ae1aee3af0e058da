use cylinder_cli::logging::{log_level, LogLevel};
use cylinder_cli::text::{contains_char, join, PATH_SEPARATOR};

#[test]
fn test_contains_char() {
    assert!(contains_char("./nonexistent/path", PATH_SEPARATOR));
    assert!(contains_char("/", '/'));
    assert!(contains_char("trailing/", '/'));
    assert!(!contains_char("alice", '/'));
    assert!(!contains_char("", '/'));
    assert!(!contains_char("back\\slash", '/'));
    assert!(contains_char("ключ/é", 'é'));
}

#[test]
fn test_join() {
    let none: Vec<String> = Vec::new();
    assert_eq!(join(&none, ":"), "");
    assert_eq!(join(&vec!["/a".to_string()], ":"), "/a");
    assert_eq!(join(&vec!["/a".to_string(), "/b".to_string()], ":"), "/a:/b");
    assert_eq!(
        join(&vec!["x".to_string(), "".to_string(), "z".to_string()], ", "),
        "x, , z"
    );
}

#[test]
fn test_log_level_of_each_verbosity() {
    assert_eq!(log_level(i8::MIN), LogLevel::Error);
    assert_eq!(log_level(-3), LogLevel::Error);
    assert_eq!(log_level(-2), LogLevel::Error);
    assert_eq!(log_level(-1), LogLevel::Warn);
    assert_eq!(log_level(0), LogLevel::Info);
    assert_eq!(log_level(1), LogLevel::Debug);
    assert_eq!(log_level(2), LogLevel::Trace);
    assert_eq!(log_level(3), LogLevel::Trace);
    assert_eq!(log_level(i8::MAX), LogLevel::Trace);
}
