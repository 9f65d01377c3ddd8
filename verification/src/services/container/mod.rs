//! The running state of projects, read and changed through the
//! `docker compose` command line.

use vstd::prelude::*;
use vstd::string::StringExecFns;
use crate::services::project::ProjectInfo;

pub mod laws;
pub mod service;

verus! {

/// What can go wrong when the state of a project's containers is read or
/// changed.
#[derive(Debug, PartialEq, Eq)]
pub enum ContainerServiceError {
    /// No project of that name is known.
    NotFound(String),
    /// The command could not be run, or it ran and reported failure.
    /// `command` holds its arguments, `error` what is known of the failure.
    FailedToExecCommand { error: String, command: String },
}

/// `ContainerServiceError` with its texts as character sequences.
pub enum ContainerErrorView {
    NotFound(Seq<char>),
    FailedToExecCommand { error: Seq<char>, command: Seq<char> },
}

impl View for ContainerServiceError {
    type V = ContainerErrorView;

    open spec fn view(&self) -> ContainerErrorView {
        match self {
            ContainerServiceError::NotFound(name) => ContainerErrorView::NotFound(name@),
            ContainerServiceError::FailedToExecCommand { error, command } =>
                ContainerErrorView::FailedToExecCommand { error: error@, command: command@ },
        }
    }
}

impl ContainerErrorView {
    /// The text shown for the error.
    pub open spec fn message(self) -> Seq<char> {
        match self {
            ContainerErrorView::NotFound(name) => "Could not find Project "@ + name,
            ContainerErrorView::FailedToExecCommand { error, command } =>
                "Failed to exec command '"@ + command + "' - "@ + error,
        }
    }

    /// The HTTP status under which the error is reported: 404 for an
    /// unknown project, 500 for a command that failed.
    pub open spec fn status_code(self) -> u16 {
        match self {
            ContainerErrorView::NotFound(_) => 404,
            ContainerErrorView::FailedToExecCommand { .. } => 500,
        }
    }
}

impl ContainerServiceError {
    /// The text shown for the error.
    pub fn message(&self) -> (text: String)
        ensures
            text@ == self@.message(),
    {
        match self {
            ContainerServiceError::NotFound(name) => String::from_str(
                "Could not find Project ",
            ).concat(name.as_str()),
            ContainerServiceError::FailedToExecCommand { error, command } => String::from_str(
                "Failed to exec command '",
            ).concat(command.as_str()).concat("' - ").concat(error.as_str()),
        }
    }

    /// The HTTP status under which the error is reported.
    pub fn status_code(&self) -> (code: u16)
        ensures
            code == self@.status_code(),
    {
        match self {
            ContainerServiceError::NotFound(_) => 404,
            ContainerServiceError::FailedToExecCommand { .. } => 500,
        }
    }
}

/// The container lifecycle as callers see it. Starting a stack that runs
/// and stopping one that does not are left to the command line, which
/// treats both as done.
pub trait ContainerServiceTrait: Send + Sync {
    /// For each project, in order, whether its stack is up.
    fn are_online(&self, projects: &[ProjectInfo]) -> Result<Vec<bool>, ContainerServiceError>;

    /// Whether the project's stack is up.
    fn is_online(&self, project: &ProjectInfo) -> Result<bool, ContainerServiceError>;

    /// Brings the project's stack down.
    fn stop(&self, project: &ProjectInfo) -> Result<(), ContainerServiceError>;

    /// Brings the project's stack up, detached.
    fn start(&self, project: &ProjectInfo) -> Result<(), ContainerServiceError>;

    /// Pulls the images of the project's stack.
    fn pull(&self, project: &ProjectInfo) -> Result<(), ContainerServiceError>;
}

} // verus!
