//! What can go wrong while an invocation is resolved.

use vstd::prelude::*;
use crate::model::Model;

verus! {

/// A failure of the toolchain collection.
#[derive(Debug, Clone, PartialEq, Eq)]
pub enum CollectionError {
    /// The file system refused an operation; the text is its report.
    Io(String),
    /// The collection's metadata could not be decoded.
    Parse(String),
    /// No toolchain of this name is installed in the collection.
    ToolchainNotFound(String),
}

pub ghost enum CollectionErrorModel {
    Io(Seq<char>),
    Parse(Seq<char>),
    ToolchainNotFound(Seq<char>),
}

impl Model for CollectionError {
    type M = CollectionErrorModel;

    open spec fn model(&self) -> CollectionErrorModel {
        match self {
            CollectionError::Io(report) => CollectionErrorModel::Io(report@),
            CollectionError::Parse(report) => CollectionErrorModel::Parse(report@),
            CollectionError::ToolchainNotFound(name) => CollectionErrorModel::ToolchainNotFound(
                name@,
            ),
        }
    }
}

impl CollectionError {
    /// A copy of the failure.
    pub fn duplicate(&self) -> (copy: Self)
        ensures
            copy == *self,
    {
        match self {
            CollectionError::Io(report) => CollectionError::Io(report.clone()),
            CollectionError::Parse(report) => CollectionError::Parse(report.clone()),
            CollectionError::ToolchainNotFound(name) => CollectionError::ToolchainNotFound(
                name.clone(),
            ),
        }
    }
}

/// A failure of the external build tool.
#[derive(Debug, Clone, PartialEq, Eq)]
pub enum FlakeEvalError {
    /// The tool could not be started; the text is the system's report.
    Io(String),
    /// The tool ran and did not exit with status zero.
    EvalFailed { status: Option<i32>, stdout: String, stderr: String },
    /// The tool's output could not be decoded.
    Parse(String),
    /// A build produced nothing that can serve as a toolchain directory.
    MissingToolchainDerivation,
}

pub ghost enum FlakeEvalErrorModel {
    Io(Seq<char>),
    EvalFailed { status: Option<i32>, stdout: Seq<char>, stderr: Seq<char> },
    Parse(Seq<char>),
    MissingToolchainDerivation,
}

impl Model for FlakeEvalError {
    type M = FlakeEvalErrorModel;

    open spec fn model(&self) -> FlakeEvalErrorModel {
        match self {
            FlakeEvalError::Io(report) => FlakeEvalErrorModel::Io(report@),
            FlakeEvalError::EvalFailed { status, stdout, stderr } => {
                FlakeEvalErrorModel::EvalFailed {
                    status: *status,
                    stdout: stdout@,
                    stderr: stderr@,
                }
            },
            FlakeEvalError::Parse(report) => FlakeEvalErrorModel::Parse(report@),
            FlakeEvalError::MissingToolchainDerivation => {
                FlakeEvalErrorModel::MissingToolchainDerivation
            },
        }
    }
}

/// A failure of the dispatcher.
#[derive(Debug, Clone, PartialEq, Eq)]
pub enum Error {
    /// The argument vector is empty.
    MissingArgv0,
    /// The dispatcher was called under its own name without a tool to invoke.
    MissingTool,
    /// The token that should name the tool has no file stem.
    InvalidToolName,
    /// A toolchain was named through the environment, not as Unicode text.
    ToolchainEnvNameNotUnicode,
    /// The toolchain at `path` has no executable for `tool`.
    ToolchainDoesNotProvideTool { path: String, tool: String },
    Flake(FlakeEvalError),
    Collection(CollectionError),
    /// The system could not tell where the dispatcher's own executable is.
    UnableToDetermineOwnExecutable(String),
}

pub ghost enum ErrorModel {
    MissingArgv0,
    MissingTool,
    InvalidToolName,
    ToolchainEnvNameNotUnicode,
    ToolchainDoesNotProvideTool { path: Seq<char>, tool: Seq<char> },
    Flake(FlakeEvalErrorModel),
    Collection(CollectionErrorModel),
    UnableToDetermineOwnExecutable(Seq<char>),
}

impl Model for Error {
    type M = ErrorModel;

    open spec fn model(&self) -> ErrorModel {
        match self {
            Error::MissingArgv0 => ErrorModel::MissingArgv0,
            Error::MissingTool => ErrorModel::MissingTool,
            Error::InvalidToolName => ErrorModel::InvalidToolName,
            Error::ToolchainEnvNameNotUnicode => ErrorModel::ToolchainEnvNameNotUnicode,
            Error::ToolchainDoesNotProvideTool { path, tool } => {
                ErrorModel::ToolchainDoesNotProvideTool { path: path@, tool: tool@ }
            },
            Error::Flake(inner) => ErrorModel::Flake(inner.model()),
            Error::Collection(inner) => ErrorModel::Collection(inner.model()),
            Error::UnableToDetermineOwnExecutable(report) => {
                ErrorModel::UnableToDetermineOwnExecutable(report@)
            },
        }
    }
}

} // verus!
