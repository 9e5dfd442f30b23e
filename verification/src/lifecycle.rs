//! How a harness process ends.
//!
//! A process stops for one of two reasons. The orchestrator asks it to: that
//! is a normal shutdown, reported with a benign message and as a success. Or
//! a condition arises with which the campaign cannot go on: that is reported
//! as a diagnostic and as a failure. What an iteration yields (a timeout, a
//! crash, a guest fault) is never a reason to stop.

use vstd::prelude::*;
use crate::snapshot::ConfigError;

verus! {

/// A condition with which the campaign cannot go on.
#[derive(Clone, Copy, Debug, PartialEq, Eq, Structural)]
pub enum FatalCondition {
    /// No name of a baseline snapshot was given.
    MissingSnapshotName,
    /// The engine has no snapshot of the given name.
    MissingSnapshot,
    /// The directory of initial seeds cannot be read.
    MissingSeedDirectory,
    /// The dictionary of tokens cannot be read as one.
    MalformedDictionary,
    /// The fuzz loop or the launcher ended with an error of their own.
    Unexpected,
}

/// Why a harness process stops.
#[derive(Clone, Copy, Debug, PartialEq, Eq, Structural)]
pub enum StopCause {
    /// The orchestrator asked for the stop.
    ShutdownRequested,
    /// The campaign cannot go on.
    Fatal(FatalCondition),
}

/// The exit code of a process that the orchestrator asked to stop.
pub const EXIT_SUCCESS: i32 = 0;

/// The exit code of a process that stops on a fatal condition.
pub const EXIT_FAILURE: i32 = 1;

impl FatalCondition {
    /// The fatal condition that a configuration error amounts to.
    pub open spec fn spec_from_config(error: ConfigError) -> FatalCondition {
        match error {
            ConfigError::MissingSnapshotName => FatalCondition::MissingSnapshotName,
        }
    }

    /// The fatal condition that a configuration error amounts to.
    #[verifier::when_used_as_spec(spec_from_config)]
    pub fn from_config(error: ConfigError) -> (condition: FatalCondition)
        ensures
            condition == FatalCondition::spec_from_config(error),
    {
        match error {
            ConfigError::MissingSnapshotName => FatalCondition::MissingSnapshotName,
        }
    }
}

impl StopCause {
    /// Whether the stop is a normal shutdown, to be reported with a benign
    /// message and no error trace.
    pub open spec fn spec_is_benign(self) -> bool {
        self == StopCause::ShutdownRequested
    }

    /// The exit code: success for a normal shutdown, failure for the rest.
    pub open spec fn spec_exit_code(self) -> i32 {
        if self.spec_is_benign() {
            EXIT_SUCCESS
        } else {
            EXIT_FAILURE
        }
    }

    /// The message that reports the stop.
    pub open spec fn spec_message(self) -> Seq<char> {
        match self {
            StopCause::ShutdownRequested => "Fuzzing stopped by user. Good bye."@,
            StopCause::Fatal(FatalCondition::MissingSnapshotName) => "name of the baseline snapshot is not set"@,
            StopCause::Fatal(FatalCondition::MissingSnapshot) => "baseline snapshot is absent"@,
            StopCause::Fatal(FatalCondition::MissingSeedDirectory) => "failed to load the initial corpus"@,
            StopCause::Fatal(FatalCondition::MalformedDictionary) => "dictionary of tokens is malformed"@,
            StopCause::Fatal(FatalCondition::Unexpected) => "unexpected exit of the fuzz loop"@,
        }
    }

    /// Whether the stop is a normal shutdown, to be reported with a benign
    /// message and no error trace.
    #[verifier::when_used_as_spec(spec_is_benign)]
    pub fn is_benign(self) -> (benign: bool)
        ensures
            benign == self.spec_is_benign(),
            benign <==> self == StopCause::ShutdownRequested,
    {
        match self {
            StopCause::ShutdownRequested => true,
            StopCause::Fatal(_) => false,
        }
    }

    /// The exit code of the process: [`EXIT_SUCCESS`] for a normal shutdown,
    /// [`EXIT_FAILURE`] for every fatal condition.
    #[verifier::when_used_as_spec(spec_exit_code)]
    pub fn exit_code(self) -> (code: i32)
        ensures
            code == self.spec_exit_code(),
            code == 0 <==> self == StopCause::ShutdownRequested,
            code != 0 <==> self is Fatal,
    {
        match self {
            StopCause::ShutdownRequested => EXIT_SUCCESS,
            StopCause::Fatal(_) => EXIT_FAILURE,
        }
    }

    /// The message that reports the stop.
    pub fn message(self) -> (text: &'static str)
        ensures
            text@ == self.spec_message(),
    {
        match self {
            StopCause::ShutdownRequested => "Fuzzing stopped by user. Good bye.",
            StopCause::Fatal(FatalCondition::MissingSnapshotName) => "name of the baseline snapshot is not set",
            StopCause::Fatal(FatalCondition::MissingSnapshot) => "baseline snapshot is absent",
            StopCause::Fatal(FatalCondition::MissingSeedDirectory) => "failed to load the initial corpus",
            StopCause::Fatal(FatalCondition::MalformedDictionary) => "dictionary of tokens is malformed",
            StopCause::Fatal(FatalCondition::Unexpected) => "unexpected exit of the fuzz loop",
        }
    }
}

} // verus!
