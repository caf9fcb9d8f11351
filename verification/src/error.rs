//! Failures of a run.

use vstd::prelude::*;

verus! {

/// Anything that goes wrong while listing.
#[derive(Debug, Clone, PartialEq, Eq)]
pub enum Error {
    /// A failure of the traversal.
    FS(crate::filesystem::Error),
    /// A failure reported by the operating system, as its message.
    IO(String),
}

/// A failure of a run as plain values.
pub enum FailureView {
    FS(crate::filesystem::error::ErrorView),
    IO(Seq<char>),
}

impl View for Error {
    type V = FailureView;

    open spec fn view(&self) -> FailureView {
        match *self {
            Error::FS(inner) => FailureView::FS(inner@),
            Error::IO(message) => FailureView::IO(message@),
        }
    }
}

impl Error {
    /// The line that tells the user of this failure.
    pub fn to_string(&self) -> (text: String)
        ensures
            text@ == match self@ {
                FailureView::FS(inner) => crate::filesystem::error::message_text(inner),
                FailureView::IO(message) => message,
            },
    {
        match self {
            Error::FS(inner) => inner.to_string(),
            Error::IO(message) => message.clone(),
        }
    }
}

impl From<crate::filesystem::Error> for Error {
    fn from(inner: crate::filesystem::Error) -> (error: Self) {
        Error::FS(inner)
    }
}

impl vstd::std_specs::convert::FromSpecImpl<crate::filesystem::Error> for Error {
    open spec fn obeys_from_spec() -> bool {
        true
    }

    open spec fn from_spec(inner: crate::filesystem::Error) -> Self {
        Error::FS(inner)
    }
}

} // verus!
