use check_git_status::error::Error;

#[test]
fn test_error_display_home_not_found() {
    let err = Error::HomeDirectoryNotFound;
    assert_eq!(err.to_string(), "Could not determine home directory");
}

#[test]
fn test_error_display_invalid_path() {
    let err = Error::InvalidPath("/invalid".to_string());
    assert!(err.to_string().contains("Invalid path"));
    assert!(err.to_string().contains("/invalid"));
}

#[test]
fn test_error_display_invalid_depth() {
    let err = Error::InvalidDepth(150);
    assert!(err.to_string().contains("Invalid depth: 150"));
    assert!(err.to_string().contains("must be between 1 and 100"));
}

#[test]
fn test_error_display_git_failed() {
    let err = Error::GitCommandFailed {
        repo: "/test/repo".to_string(),
        message: "command not found".to_string(),
    };
    let display = err.to_string();
    assert!(display.contains("Git command failed"));
    assert!(display.contains("/test/repo"));
    assert!(display.contains("command not found"));
}

#[test]
fn test_error_from_io_error() {
    let io_err = std::io::Error::new(std::io::ErrorKind::NotFound, "file not found");
    let err: Error = io_err.into();
    match err {
        Error::Io(_) => {}
        _ => panic!("Expected Error::Io variant"),
    }
}

#[test]
fn test_error_other() {
    let err = Error::Other("custom error".to_string());
    assert_eq!(err.to_string(), "custom error");
}

#[test]
fn io_error_text_follows_prefix() {
    let io_err = std::io::Error::new(std::io::ErrorKind::NotFound, "file not found");
    let err: Error = io_err.into();
    assert_eq!(err.to_string(), "IO error: file not found");
}

#[test]
fn invalid_depth_text_is_exact() {
    assert_eq!(
        Error::InvalidDepth(0).to_string(),
        "Invalid depth: 0 (must be between 1 and 100)"
    );
    assert_eq!(
        Error::InvalidDepth(18446744073709551615).to_string(),
        "Invalid depth: 18446744073709551615 (must be between 1 and 100)"
    );
}

#[test]
fn git_failure_text_is_exact() {
    let err = Error::GitCommandFailed { repo: "/r".to_string(), message: "boom".to_string() };
    assert_eq!(err.to_string(), "Git command failed in /r: boom");
}
