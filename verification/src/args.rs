//! The options of one run.

use vstd::prelude::*;

verus! {

/// What to list and how.
#[derive(Debug, Clone)]
pub struct Args {
    /// Paths of the files, directories or symbolic links to list.
    pub paths: Vec<String>,
    /// Do not hide names that start with a dot.
    pub all: bool,
    /// Use the long listing format.
    pub long: bool,
    /// Hide only the implied `.` and `..`.
    pub almost_all: bool,
    /// Show what a symbolic link points to instead of the link itself.
    pub dereference: bool,
    /// List subdirectories recursively.
    pub recursive: bool,
}

} // verus!
