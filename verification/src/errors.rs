//! The closed set of evaluation failures.

use vstd::prelude::*;
use vstd::string::StringExecFns;

verus! {

/// Specification-level mirror of [`CliError`]: the flag name is abstracted to
/// its character sequence.
pub enum SpecCliError {
    AmbiguousCommand,
    ValueEvaluation,
    FlagEvaluation(Seq<char>),
}

/// An evaluation failure.
///
/// - `AmbiguousCommand`: a command name did not match, or not exactly one
///   alternative of a [`crate::OneOf`] matched.
/// - `ValueEvaluation`: a token was found but did not satisfy a constraint
///   (failed to parse, or was outside an allowed set of choices).
/// - `FlagEvaluation(name)`: the flag called `name` was not found, or the
///   value following it could not be evaluated.
#[derive(Debug, Clone, PartialEq)]
pub enum CliError {
    AmbiguousCommand,
    ValueEvaluation,
    FlagEvaluation(String),
}

impl View for CliError {
    type V = SpecCliError;

    open spec fn view(&self) -> SpecCliError {
        match self {
            CliError::AmbiguousCommand => SpecCliError::AmbiguousCommand,
            CliError::ValueEvaluation => SpecCliError::ValueEvaluation,
            CliError::FlagEvaluation(name) => SpecCliError::FlagEvaluation(name@),
        }
    }
}

impl CliError {
    /// The characters of [`CliError::message`].
    pub open spec fn spec_message(&self) -> Seq<char> {
        match self {
            CliError::AmbiguousCommand => "ambiguous command"@,
            CliError::ValueEvaluation => "value missmatch"@,
            CliError::FlagEvaluation(name) => "unable to evaluate flag: "@ + name@,
        }
    }

    /// A human-readable description of the failure.
    pub fn message(&self) -> (r: String)
        ensures
            r@ == self.spec_message(),
    {
        match self {
            CliError::AmbiguousCommand => String::from_str("ambiguous command"),
            CliError::ValueEvaluation => String::from_str("value missmatch"),
            CliError::FlagEvaluation(name) => String::from_str("unable to evaluate flag: ").concat(
                name.as_str(),
            ),
        }
    }
}

} // verus!
