//! Failures of the traversal. None of them ends the run: each is reported and
//! folded into the exit status.

use vstd::prelude::*;
use crate::exit_status::{ExitStatus, IntoExitStatus};
use crate::text::{debug_quoted, debug_text};

verus! {

pub type Result<T> = std::result::Result<T, Error>;

/// What can go wrong with one path, entry or directory.
#[derive(Debug, Clone, PartialEq, Eq)]
pub enum Error {
    /// A path that is not valid UTF-8.
    PathInvalidUTF8Error { path: String },
    /// A name inside directory `path` that is not valid UTF-8.
    FileInvalidUTF8Error { path: String },
    /// A directory that could not be opened.
    CannotOpenDirectoryError { path: String, message: String },
    /// An entry of directory `name` that could not be read.
    CannotReadFileInDirectoryError { name: String, message: String },
    /// A file whose metadata could not be had.
    CannotAccessFileError { name: String, message: String },
    /// A symbolic link whose target could not be read or reached.
    CannotReadSymbolicLinkError { path: String, message: String },
    /// A directory whose device and inode could not be had.
    CannotDetermineDevInoError { path: String, message: String },
    /// A directory that is its own ancestor in the present descent.
    DirectoryAlreadyListedError { name: String },
}

/// A failure as plain values.
pub enum ErrorView {
    PathInvalidUTF8Error { path: Seq<char> },
    FileInvalidUTF8Error { path: Seq<char> },
    CannotOpenDirectoryError { path: Seq<char>, message: Seq<char> },
    CannotReadFileInDirectoryError { name: Seq<char>, message: Seq<char> },
    CannotAccessFileError { name: Seq<char>, message: Seq<char> },
    CannotReadSymbolicLinkError { path: Seq<char>, message: Seq<char> },
    CannotDetermineDevInoError { path: Seq<char>, message: Seq<char> },
    DirectoryAlreadyListedError { name: Seq<char> },
}

impl View for Error {
    type V = ErrorView;

    open spec fn view(&self) -> ErrorView {
        match *self {
            Error::PathInvalidUTF8Error { path } => ErrorView::PathInvalidUTF8Error { path: path@ },
            Error::FileInvalidUTF8Error { path } => ErrorView::FileInvalidUTF8Error { path: path@ },
            Error::CannotOpenDirectoryError { path, message } => ErrorView::CannotOpenDirectoryError {
                path: path@,
                message: message@,
            },
            Error::CannotReadFileInDirectoryError {
                name,
                message,
            } => ErrorView::CannotReadFileInDirectoryError { name: name@, message: message@ },
            Error::CannotAccessFileError { name, message } => ErrorView::CannotAccessFileError {
                name: name@,
                message: message@,
            },
            Error::CannotReadSymbolicLinkError {
                path,
                message,
            } => ErrorView::CannotReadSymbolicLinkError { path: path@, message: message@ },
            Error::CannotDetermineDevInoError {
                path,
                message,
            } => ErrorView::CannotDetermineDevInoError { path: path@, message: message@ },
            Error::DirectoryAlreadyListedError { name } => ErrorView::DirectoryAlreadyListedError {
                name: name@,
            },
        }
    }
}

/// The line that tells the user of a failure.
pub open spec fn message_text(error: ErrorView) -> Seq<char> {
    match error {
        ErrorView::PathInvalidUTF8Error { path } => "path contains invalid UTF-8: "@ + debug_text(
            path,
        ),
        ErrorView::FileInvalidUTF8Error { path } => "file name in Directory \""@ + path
            + "\" contains invalid UTF-8:"@,
        ErrorView::CannotOpenDirectoryError { path, message } => "cannot open directory "@
            + debug_text(path) + ": "@ + message,
        ErrorView::CannotReadFileInDirectoryError { name, message } => "reading file in directory '"@
            + name + "': "@ + message,
        ErrorView::CannotAccessFileError { name, message } => "cannot access '"@ + name + "': "@
            + message,
        ErrorView::CannotReadSymbolicLinkError { path, message } => "cannot read symbolic link "@
            + debug_text(path) + ": "@ + message,
        ErrorView::CannotDetermineDevInoError {
            path,
            message,
        } => "cannot determine device and inode of "@ + debug_text(path) + ": "@ + message,
        ErrorView::DirectoryAlreadyListedError { name } => name
            + ": not listing already-listed directory"@,
    }
}

/// The text made of four parts.
fn four_parts(a: &str, b: &str, c: &str, d: &str) -> (text: String)
    ensures
        text@ == a@ + b@ + c@ + d@,
{
    let mut text = a.to_owned();
    text.append(b);
    text.append(c);
    text.append(d);
    text
}

impl Error {
    /// The line that tells the user of this failure.
    pub fn to_string(&self) -> (text: String)
        ensures
            text@ == message_text(self@),
    {
        match self {
            Error::PathInvalidUTF8Error { path } => {
                let mut text = "path contains invalid UTF-8: ".to_owned();
                text.append(debug_quoted(path.as_str()).as_str());
                text
            },
            Error::FileInvalidUTF8Error { path } => {
                let mut text = "file name in Directory \"".to_owned();
                text.append(path.as_str());
                text.append("\" contains invalid UTF-8:");
                text
            },
            Error::CannotOpenDirectoryError { path, message } => four_parts(
                "cannot open directory ",
                debug_quoted(path.as_str()).as_str(),
                ": ",
                message.as_str(),
            ),
            Error::CannotReadFileInDirectoryError { name, message } => four_parts(
                "reading file in directory '",
                name.as_str(),
                "': ",
                message.as_str(),
            ),
            Error::CannotAccessFileError { name, message } => four_parts(
                "cannot access '",
                name.as_str(),
                "': ",
                message.as_str(),
            ),
            Error::CannotReadSymbolicLinkError { path, message } => four_parts(
                "cannot read symbolic link ",
                debug_quoted(path.as_str()).as_str(),
                ": ",
                message.as_str(),
            ),
            Error::CannotDetermineDevInoError { path, message } => four_parts(
                "cannot determine device and inode of ",
                debug_quoted(path.as_str()).as_str(),
                ": ",
                message.as_str(),
            ),
            Error::DirectoryAlreadyListedError { name } => {
                let mut text = name.clone();
                text.append(": not listing already-listed directory");
                text
            },
        }
    }
}

impl IntoExitStatus for Error {
    fn into_exit_status(&self, cli_arg: bool) -> (status: ExitStatus)
        ensures
            status == ExitStatus::severity(cli_arg),
    {
        <ExitStatus as From<bool>>::from(cli_arg)
    }
}

} // verus!
