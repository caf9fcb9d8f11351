//! The status a run ends with: it only ever rises.

use vstd::prelude::*;
use crate::error::Error;

verus! {

/// How a run went, from best to worst.
#[derive(Copy, Clone, Debug, PartialEq, Eq, Structural)]
pub enum ExitStatus {
    /// Nothing went wrong.
    ExitSuccess,
    /// Something could not be listed, but every argument was found.
    LrsMinorProblem,
    /// An argument given by the caller could not be resolved.
    LrsFailure,
}

impl ExitStatus {
    /// The numeric level of a status; a higher level is worse.
    pub open spec fn level(self) -> nat {
        match self {
            ExitStatus::ExitSuccess => 0,
            ExitStatus::LrsMinorProblem => 1,
            ExitStatus::LrsFailure => 2,
        }
    }

    /// The status a failure calls for: a failure on an argument of the caller
    /// is serious, any other is minor.
    pub open spec fn severity(cli_arg: bool) -> ExitStatus {
        if cli_arg {
            ExitStatus::LrsFailure
        } else {
            ExitStatus::LrsMinorProblem
        }
    }

    /// The status raised to at least `to`.
    pub open spec fn raised(self, to: ExitStatus) -> ExitStatus {
        if self.level() < to.level() {
            to
        } else {
            self
        }
    }

    /// The process exit code of the status.
    pub fn code(&self) -> (code: u8)
        ensures
            code == self.level(),
    {
        match self {
            ExitStatus::ExitSuccess => 0,
            ExitStatus::LrsMinorProblem => 1,
            ExitStatus::LrsFailure => 2,
        }
    }

    /// Raises the status to at least `to`; it never lowers it.
    pub fn raise(&mut self, to: ExitStatus)
        ensures
            *final(self) == old(self).raised(to),
    {
        if self.code() < to.code() {
            *self = to;
        }
    }

    /// Folds one failure into the status.
    pub fn update(&mut self, error: &Error, cli_arg: bool)
        ensures
            *final(self) == old(self).raised(ExitStatus::severity(cli_arg)),
    {
        let new_status: ExitStatus = error.into_exit_status(cli_arg);
        self.raise(new_status);
    }
}

impl Default for ExitStatus {
    fn default() -> (status: Self)
        ensures
            status == ExitStatus::ExitSuccess,
    {
        ExitStatus::ExitSuccess
    }
}

impl From<&ExitStatus> for u8 {
    fn from(exit_status: &ExitStatus) -> (code: Self) {
        exit_status.code()
    }
}

impl vstd::std_specs::convert::FromSpecImpl<&ExitStatus> for u8 {
    open spec fn obeys_from_spec() -> bool {
        true
    }

    open spec fn from_spec(exit_status: &ExitStatus) -> Self {
        exit_status.level() as u8
    }
}

impl From<bool> for ExitStatus {
    fn from(serious: bool) -> (status: Self) {
        if serious {
            ExitStatus::LrsFailure
        } else {
            ExitStatus::LrsMinorProblem
        }
    }
}

impl vstd::std_specs::convert::FromSpecImpl<bool> for ExitStatus {
    open spec fn obeys_from_spec() -> bool {
        true
    }

    open spec fn from_spec(serious: bool) -> Self {
        ExitStatus::severity(serious)
    }
}

/// Failures that know how badly they weigh on the status of the run.
pub trait IntoExitStatus {
    /// The status this failure calls for; `cli_arg` tells whether it struck an
    /// argument of the caller.
    fn into_exit_status(&self, cli_arg: bool) -> ExitStatus;
}

impl IntoExitStatus for Error {
    fn into_exit_status(&self, cli_arg: bool) -> (status: ExitStatus)
        ensures
            status == ExitStatus::severity(cli_arg),
    {
        <ExitStatus as From<bool>>::from(cli_arg)
    }
}

} // verus!
