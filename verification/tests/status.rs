use lrs::error::Error;
use lrs::exit_status::{ExitStatus, IntoExitStatus};
use lrs::filesystem;

fn failure() -> Error {
    Error::FS(filesystem::Error::DirectoryAlreadyListedError { name: "d".to_string() })
}

#[test]
fn status_starts_at_success() {
    assert_eq!(ExitStatus::default(), ExitStatus::ExitSuccess);
    assert_eq!(ExitStatus::default().code(), 0);
}

#[test]
fn status_only_rises() {
    let mut status = ExitStatus::default();
    status.update(&failure(), false);
    assert_eq!(status, ExitStatus::LrsMinorProblem);
    status.update(&failure(), true);
    assert_eq!(status, ExitStatus::LrsFailure);
    status.update(&failure(), false);
    assert_eq!(status, ExitStatus::LrsFailure);
    status.raise(ExitStatus::ExitSuccess);
    assert_eq!(status, ExitStatus::LrsFailure);
}

#[test]
fn a_failed_argument_weighs_more() {
    assert_eq!(failure().into_exit_status(true), ExitStatus::LrsFailure);
    assert_eq!(failure().into_exit_status(false), ExitStatus::LrsMinorProblem);
    let inner = filesystem::Error::FileInvalidUTF8Error { path: "d".to_string() };
    assert_eq!(inner.into_exit_status(true), ExitStatus::LrsFailure);
    assert_eq!(inner.into_exit_status(false), ExitStatus::LrsMinorProblem);
    assert_eq!(ExitStatus::from(true), ExitStatus::LrsFailure);
    assert_eq!(ExitStatus::from(false), ExitStatus::LrsMinorProblem);
}

#[test]
fn codes_are_zero_one_two() {
    assert_eq!(u8::from(&ExitStatus::ExitSuccess), 0);
    assert_eq!(u8::from(&ExitStatus::LrsMinorProblem), 1);
    assert_eq!(u8::from(&ExitStatus::LrsFailure), 2);
    assert_eq!(ExitStatus::LrsFailure.code(), 2);
}

#[test]
fn failures_tell_what_went_wrong() {
    let cases: Vec<(filesystem::Error, &str)> = vec![
        (
            filesystem::Error::PathInvalidUTF8Error { path: "a\u{fffd}".to_string() },
            "path contains invalid UTF-8: \"a\u{fffd}\"",
        ),
        (
            filesystem::Error::FileInvalidUTF8Error { path: "dir".to_string() },
            "file name in Directory \"dir\" contains invalid UTF-8:",
        ),
        (
            filesystem::Error::CannotOpenDirectoryError {
                path: "d\"x".to_string(),
                message: "denied".to_string(),
            },
            "cannot open directory \"d\\\"x\": denied",
        ),
        (
            filesystem::Error::CannotReadFileInDirectoryError {
                name: "dir".to_string(),
                message: "io".to_string(),
            },
            "reading file in directory 'dir': io",
        ),
        (
            filesystem::Error::CannotAccessFileError {
                name: "f".to_string(),
                message: "gone".to_string(),
            },
            "cannot access 'f': gone",
        ),
        (
            filesystem::Error::CannotReadSymbolicLinkError {
                path: "l".to_string(),
                message: "gone".to_string(),
            },
            "cannot read symbolic link \"l\": gone",
        ),
        (
            filesystem::Error::CannotDetermineDevInoError {
                path: "d".to_string(),
                message: "gone".to_string(),
            },
            "cannot determine device and inode of \"d\": gone",
        ),
        (
            filesystem::Error::DirectoryAlreadyListedError { name: "d/link".to_string() },
            "d/link: not listing already-listed directory",
        ),
    ];
    for (error, text) in cases {
        assert_eq!(error.to_string(), text);
        assert_eq!(Error::from(error).to_string(), text);
    }
    assert_eq!(Error::IO("broken pipe".to_string()).to_string(), "broken pipe");
}
