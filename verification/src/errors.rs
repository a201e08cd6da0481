//! The three ways an orchestration run can fail.

use vstd::prelude::*;

use crate::command::{CommandModel, CommandSpec};

verus! {

/// Why an orchestration run stopped. Every failure is fatal: nothing is
/// retried, and no later step runs.
pub enum BuildError {
    /// No configuration mapping exists for the requested target platform.
    UnsupportedTarget { target: String },
    /// An external command exited with a non-zero status.
    BuildFailure { step: String, command: CommandSpec, exit_code: i32 },
    /// A copy, remove or create operation on the build tree failed.
    FilesystemFailure { operation: String, path: String },
}

/// The mathematical image of a [`BuildError`].
#[verifier::ext_equal]
pub enum ErrorModel {
    UnsupportedTarget { target: Seq<char> },
    BuildFailure { step: Seq<char>, command: CommandModel, exit_code: i32 },
    FilesystemFailure { operation: Seq<char>, path: Seq<char> },
}

impl View for BuildError {
    type V = ErrorModel;

    open spec fn view(&self) -> ErrorModel {
        match self {
            BuildError::UnsupportedTarget { target } => ErrorModel::UnsupportedTarget {
                target: target@,
            },
            BuildError::BuildFailure { step, command, exit_code } => ErrorModel::BuildFailure {
                step: step@,
                command: command@,
                exit_code: *exit_code,
            },
            BuildError::FilesystemFailure { operation, path } => ErrorModel::FilesystemFailure {
                operation: operation@,
                path: path@,
            },
        }
    }
}

impl BuildError {
    /// Returns a copy of this error.
    pub fn duplicate(&self) -> (r: BuildError)
        ensures
            r@ == self@,
    {
        match self {
            BuildError::UnsupportedTarget { target } => BuildError::UnsupportedTarget {
                target: target.clone(),
            },
            BuildError::BuildFailure { step, command, exit_code } => {
                let r = BuildError::BuildFailure {
                    step: step.clone(),
                    command: command.duplicate(),
                    exit_code: *exit_code,
                };
                proof {
                    assert(r@ =~~= self@);
                }
                r
            },
            BuildError::FilesystemFailure { operation, path } => BuildError::FilesystemFailure {
                operation: operation.clone(),
                path: path.clone(),
            },
        }
    }
}

} // verus!
