use vstd::prelude::*;

verus! {

/// Every way a stage of the pipeline can fail.
#[derive(Clone, Debug, PartialEq, Eq)]
pub enum StellaError {
    /// The command line held neither 3 nor 4 arguments.
    InvalidArgumentCount,
    /// The verb is none of `new`, `tp`, `build`, `run`.
    UnknownCommand,
    /// A stage was reached with the wrong verb, or with a target where none
    /// belongs (or without one where it is required).
    InvalidArgumentShape,
    /// `new` was asked for a project directory that is already there.
    ProjectAlreadyExists,
    /// A subdirectory of a fresh project was already there.
    DirectoryConflict,
    /// The project, or its `tp` directory, does not exist.
    DirectoryNotFound,
    /// A file about to be rewritten could not be deleted first.
    OverwriteFailed,
    /// A diagnostic was asked of an empty error stream.
    EmptyDiagnostic,
    /// The transpiler failed: the diagnostic (the first line of its error
    /// stream), then the whole stream.
    TranspileError(String, String),
    /// The transpiler wrote nothing on either stream.
    ToolProtocolViolation,
    /// The compiler wrote on its error stream: the diagnostic (the first line),
    /// then the whole stream.
    CompileError(String, String),
    /// The module's executable is missing, or wrote on its error stream.
    ExecutableNotFound,
}

} // verus!
