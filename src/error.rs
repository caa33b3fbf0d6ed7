//! Typed errors of a build: each failure is reported to the caller, never fatal.
use vstd::prelude::*;

verus! {

#[derive(Debug, Clone, PartialEq, Eq)]
pub enum BuildError {
    /// No task with this id in the configuration.
    TaskNotFound(String),
    /// No week with this number in the configuration.
    WeekNotFound(u8),
    /// A stage declares a flag kind other than the three known ones.
    UnknownFlagKind(String),
    /// The flag of the stage with this id lacks the parameter its kind needs.
    MissingFlagParameter(String),
    /// A derived flag names a hash algorithm that is not supported.
    UnsupportedAlgorithm(String),
    /// Two flags of one task would share this id (and so one variable).
    DuplicateFlagId(String),
    /// The collected outputs hold this many instruction files instead of one.
    ReadmeCount(usize),
    /// The output directory could not be created.
    DirectoryCreation(String),
    /// A declared output file is missing or its path cannot be resolved.
    MissingOutput(String),
    /// The builder process could not be started.
    ProcessSpawn(String),
    /// The builder process exited with a failure status; holds its error text.
    NonZeroExit(String),
    /// The task asks for a builder that is not implemented.
    UnsupportedBuilder(String),
}

} // verus!
