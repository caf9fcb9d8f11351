//! Which names a directory listing leaves out.

use vstd::prelude::*;

verus! {

/// The policy for hidden names.
#[derive(Debug, Clone, Copy, PartialEq, Eq, Structural)]
pub enum IgnoreMode {
    /// Leave out names that start with a dot.
    IgnoreDefault,
    /// Leave out only `.` and `..`.
    IgnoreDotAndDotDot,
    /// Leave out nothing.
    IgnoreMinimal,
}

impl Default for IgnoreMode {
    fn default() -> (mode: Self)
        ensures
            mode == IgnoreMode::IgnoreDefault,
    {
        IgnoreMode::IgnoreDefault
    }
}

} // verus!
