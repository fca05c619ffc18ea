use cmake_ls::error::{Error, IoErrorKind, IoFailure};
use cmake_ls::text::{compare_text, decimal_text, join_path, trim_end, Order};

#[test]
fn every_error_has_its_message() {
    let failure = || IoFailure { kind: IoErrorKind::Other, message: "boom".to_string() };
    let cases = [
        (Error::io("inspect build directory", "b".to_string(), failure()), "failed to inspect build directory `b`: boom"),
        (
            Error::InvalidBuildDirectory { path: "b".to_string(), reason: "why".to_string() },
            "invalid CMake build directory `b`: why",
        ),
        (Error::StartCmake { path: "b".to_string(), source: failure() }, "failed to run `cmake` for `b`: boom"),
        (
            Error::CmakeFailed {
                path: "b".to_string(),
                status: "exit status: 1".to_string(),
                output: "\nCMake stderr:\nx".to_string(),
            },
            "CMake configuration failed for `b` with exit status: 1\nCMake stderr:\nx",
        ),
        (
            Error::InstallInterruptHandler("Ctrl-C signal handler already registered".to_string()),
            "failed to install Ctrl+C handler: Ctrl-C signal handler already registered",
        ),
        (Error::Interrupted, "interrupted"),
        (
            Error::CmakeOutputReaderPanicked { path: "b".to_string(), stream: "stdout".to_string() },
            "failed to capture CMake stdout for `b`",
        ),
        (
            Error::Json { path: "i.json".to_string(), message: "EOF while parsing".to_string() },
            "failed to parse CMake File API reply `i.json`: EOF while parsing",
        ),
        (
            Error::FileApi { path: "r".to_string(), reason: "bad".to_string() },
            "invalid CMake File API response in `r`: bad",
        ),
        (Error::write_stdout(failure()), "failed to write target list to stdout: boom"),
    ];
    for (error, message) in cases {
        assert_eq!(error.message(), message);
    }
}

#[test]
fn error_predicates() {
    let not_found = Error::io(
        "read File API reply",
        "x".to_string(),
        IoFailure { kind: IoErrorKind::NotFound, message: "gone".to_string() },
    );
    assert!(not_found.is_not_found());
    assert!(!not_found.is_interrupted());
    assert!(!not_found.is_broken_pipe());
    let pipe = Error::write_stdout(IoFailure { kind: IoErrorKind::NotFound, message: "m".to_string() });
    assert!(!pipe.is_not_found());
    assert!(Error::Interrupted.is_interrupted());
}

#[test]
fn decimal_numbers() {
    assert_eq!(decimal_text(0), "0");
    assert_eq!(decimal_text(7), "7");
    assert_eq!(decimal_text(10), "10");
    assert_eq!(decimal_text(2024), "2024");
    assert_eq!(decimal_text(u64::MAX), "18446744073709551615");
}

#[test]
fn paths_and_text() {
    assert_eq!(join_path("", "a"), "a");
    assert_eq!(join_path("a/", "b"), "a/b");
    assert_eq!(join_path("a", "b/c"), "a/b/c");
    assert_eq!(trim_end("x y \t\n"), "x y");
    assert_eq!(trim_end("   "), "");
    assert_eq!(compare_text("abc", "abd"), Order::Less);
    assert_eq!(compare_text("ab", "a"), Order::Greater);
    assert_eq!(compare_text("é", "é"), Order::Equal);
    assert_eq!(compare_text("z", "é"), Order::Less);
}
