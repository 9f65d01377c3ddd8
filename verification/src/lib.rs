//! The core of a manager for container projects: the project repository
//! and file store with their path sandbox, the lifecycle controller over
//! `docker compose`, and the guard that issues and checks credentials.

use vstd::prelude::*;
use crate::services::container::{ContainerErrorView, ContainerServiceError};
use crate::services::project::{ProjectErrorView, ProjectServiceError};

pub mod path;
pub mod routes;
pub mod services;
pub mod text;

pub use crate::routes::auth::{AdminAuth, Keys};

verus! {

/// A failure of either service.
#[derive(Debug, PartialEq, Eq)]
pub enum AppError {
    Project(ProjectServiceError),
    Container(ContainerServiceError),
}

/// `AppError` with its texts as character sequences.
pub enum AppErrorView {
    Project(ProjectErrorView),
    Container(ContainerErrorView),
}

impl View for AppError {
    type V = AppErrorView;

    open spec fn view(&self) -> AppErrorView {
        match self {
            AppError::Project(error) => AppErrorView::Project(error@),
            AppError::Container(error) => AppErrorView::Container(error@),
        }
    }
}

impl AppErrorView {
    /// The text shown for the error: that of the service's error.
    pub open spec fn message(self) -> Seq<char> {
        match self {
            AppErrorView::Project(error) => error.message(),
            AppErrorView::Container(error) => error.message(),
        }
    }

    /// The HTTP status under which the error is reported: that of the
    /// service's error.
    pub open spec fn status_code(self) -> u16 {
        match self {
            AppErrorView::Project(error) => error.status_code(),
            AppErrorView::Container(error) => error.status_code(),
        }
    }
}

impl AppError {
    /// The text shown for the error.
    pub fn message(&self) -> (text: String)
        ensures
            text@ == self@.message(),
    {
        match self {
            AppError::Project(error) => error.message(),
            AppError::Container(error) => error.message(),
        }
    }

    /// The HTTP status under which the error is reported.
    pub fn status_code(&self) -> (code: u16)
        ensures
            code == self@.status_code(),
    {
        match self {
            AppError::Project(error) => error.status_code(),
            AppError::Container(error) => error.status_code(),
        }
    }
}

impl From<ProjectServiceError> for AppError {
    fn from(error: ProjectServiceError) -> (wrapped: AppError) {
        AppError::Project(error)
    }
}

impl vstd::std_specs::convert::FromSpecImpl<ProjectServiceError> for AppError {
    open spec fn obeys_from_spec() -> bool {
        true
    }

    open spec fn from_spec(error: ProjectServiceError) -> AppError {
        AppError::Project(error)
    }
}

impl From<ContainerServiceError> for AppError {
    fn from(error: ContainerServiceError) -> (wrapped: AppError) {
        AppError::Container(error)
    }
}

impl vstd::std_specs::convert::FromSpecImpl<ContainerServiceError> for AppError {
    open spec fn obeys_from_spec() -> bool {
        true
    }

    open spec fn from_spec(error: ContainerServiceError) -> AppError {
        AppError::Container(error)
    }
}

} // verus!
