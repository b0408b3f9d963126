use backend_supervisor::errors::LauncherError;
use backend_supervisor::greet;
use backend_supervisor::text::join_path;
use backend_supervisor::text::u16_to_string;

#[test]
fn greet_is_exact() {
    assert_eq!(greet("Bob"), "Hello, Bob! You've been greeted from Rust!");
    assert_eq!(greet(""), "Hello, ! You've been greeted from Rust!");
}

#[test]
fn decimal_rendering() {
    assert_eq!(u16_to_string(0), "0");
    assert_eq!(u16_to_string(7), "7");
    assert_eq!(u16_to_string(80), "80");
    assert_eq!(u16_to_string(1420), "1420");
    assert_eq!(u16_to_string(65535), "65535");
}

#[test]
fn path_joining() {
    assert_eq!(join_path("/a/b", "c"), "/a/b/c");
    assert_eq!(join_path("", "c"), "/c");
}

#[test]
fn error_kinds_are_distinct() {
    let kinds = [
        LauncherError::PortAllocation.kind(),
        LauncherError::BinaryNotFound { searched: Vec::new() }.kind(),
        LauncherError::Spawn.kind(),
        LauncherError::ImmediateExit { status: None }.kind(),
        LauncherError::BackendTimeout.kind(),
    ];
    for (i, a) in kinds.iter().enumerate() {
        for (j, b) in kinds.iter().enumerate() {
            if i != j {
                assert_ne!(a, b);
            }
        }
    }
    assert_eq!(LauncherError::Spawn.kind(), "backend process could not be spawned");
}

#[test]
fn exit_status_accessor_is_selective() {
    assert_eq!(LauncherError::BackendTimeout.exit_status(), None);
    assert_eq!(
        LauncherError::ImmediateExit { status: Some(7) }.exit_status(),
        Some(7)
    );
}
