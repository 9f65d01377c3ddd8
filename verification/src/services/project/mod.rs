//! Projects: directories under a base path, each holding the files of one
//! container stack.

use vstd::prelude::*;
use vstd::string::StringExecFns;
use crate::path::child_of;

pub mod fs;
pub mod laws;
pub mod model;
pub mod service;

verus! {

/// What can go wrong in the project repository and the file store.
#[derive(Debug, PartialEq, Eq)]
pub enum ProjectServiceError {
    /// No directory of that name lies directly under the base path.
    ProjectNotFound(String),
    /// A project of that name exists already.
    ProjectAlreadyExists(String),
    /// The project's directory could not be removed.
    FailedToDeleteProject(String),
    /// The project holds no such file.
    FileNotFound { project: String, file: String },
    /// The directory at the given path could not be listed or examined.
    FailedToReadDir(String),
    /// The file at the given path could not be read.
    FailedToReadFile(String),
    /// The file at the given path could not be created or written.
    FailedToWriteFile(String),
    /// The file at the given path could not be removed.
    FailedToDeleteFile(String),
    /// The name would leave the directory it is to be joined under.
    InvalidFilePath(String),
}

/// `ProjectServiceError` with its texts as character sequences.
pub enum ProjectErrorView {
    ProjectNotFound(Seq<char>),
    ProjectAlreadyExists(Seq<char>),
    FailedToDeleteProject(Seq<char>),
    FileNotFound { project: Seq<char>, file: Seq<char> },
    FailedToReadDir(Seq<char>),
    FailedToReadFile(Seq<char>),
    FailedToWriteFile(Seq<char>),
    FailedToDeleteFile(Seq<char>),
    InvalidFilePath(Seq<char>),
}

impl View for ProjectServiceError {
    type V = ProjectErrorView;

    open spec fn view(&self) -> ProjectErrorView {
        match self {
            ProjectServiceError::ProjectNotFound(n) => ProjectErrorView::ProjectNotFound(n@),
            ProjectServiceError::ProjectAlreadyExists(n) => ProjectErrorView::ProjectAlreadyExists(
                n@,
            ),
            ProjectServiceError::FailedToDeleteProject(n) => ProjectErrorView::FailedToDeleteProject(
                n@,
            ),
            ProjectServiceError::FileNotFound { project, file } => ProjectErrorView::FileNotFound {
                project: project@,
                file: file@,
            },
            ProjectServiceError::FailedToReadDir(p) => ProjectErrorView::FailedToReadDir(p@),
            ProjectServiceError::FailedToReadFile(p) => ProjectErrorView::FailedToReadFile(p@),
            ProjectServiceError::FailedToWriteFile(p) => ProjectErrorView::FailedToWriteFile(p@),
            ProjectServiceError::FailedToDeleteFile(p) => ProjectErrorView::FailedToDeleteFile(p@),
            ProjectServiceError::InvalidFilePath(p) => ProjectErrorView::InvalidFilePath(p@),
        }
    }
}

impl ProjectErrorView {
    /// The text shown for the error.
    pub open spec fn message(self) -> Seq<char> {
        match self {
            ProjectErrorView::ProjectNotFound(n) => "Could not find Project "@ + n,
            ProjectErrorView::ProjectAlreadyExists(n) => "A Project with the name "@ + n
                + " does already Exist"@,
            ProjectErrorView::FailedToDeleteProject(n) => "Failed to delete Project "@ + n,
            ProjectErrorView::FileNotFound { project, file } => "Could not find file "@ + file
                + " for "@ + project,
            ProjectErrorView::FailedToReadDir(p) => "Failed to read directory at "@ + p,
            ProjectErrorView::FailedToReadFile(p) => "Failed to read file at "@ + p,
            ProjectErrorView::FailedToWriteFile(p) => "Failed to write file at "@ + p,
            ProjectErrorView::FailedToDeleteFile(p) => "Failed to delete file at "@ + p,
            ProjectErrorView::InvalidFilePath(p) =>
                "Cannot access files outside of project dir - tried to access "@ + p,
        }
    }

    /// The HTTP status under which the error is reported: 404 for a lookup
    /// miss, 400 for a request that cannot be served as asked, 500 for a
    /// failure of the file system.
    pub open spec fn status_code(self) -> u16 {
        match self {
            ProjectErrorView::ProjectNotFound(_) => 404,
            ProjectErrorView::FileNotFound { .. } => 404,
            ProjectErrorView::InvalidFilePath(_) => 400,
            ProjectErrorView::ProjectAlreadyExists(_) => 400,
            ProjectErrorView::FailedToReadDir(_) => 500,
            ProjectErrorView::FailedToReadFile(_) => 500,
            ProjectErrorView::FailedToWriteFile(_) => 500,
            ProjectErrorView::FailedToDeleteFile(_) => 500,
            ProjectErrorView::FailedToDeleteProject(_) => 500,
        }
    }
}

impl ProjectServiceError {
    /// The text shown for the error.
    pub fn message(&self) -> (text: String)
        ensures
            text@ == self@.message(),
    {
        match self {
            ProjectServiceError::ProjectNotFound(n) => String::from_str(
                "Could not find Project ",
            ).concat(n.as_str()),
            ProjectServiceError::ProjectAlreadyExists(n) => String::from_str(
                "A Project with the name ",
            ).concat(n.as_str()).concat(" does already Exist"),
            ProjectServiceError::FailedToDeleteProject(n) => String::from_str(
                "Failed to delete Project ",
            ).concat(n.as_str()),
            ProjectServiceError::FileNotFound { project, file } => String::from_str(
                "Could not find file ",
            ).concat(file.as_str()).concat(" for ").concat(project.as_str()),
            ProjectServiceError::FailedToReadDir(p) => String::from_str(
                "Failed to read directory at ",
            ).concat(p.as_str()),
            ProjectServiceError::FailedToReadFile(p) => String::from_str(
                "Failed to read file at ",
            ).concat(p.as_str()),
            ProjectServiceError::FailedToWriteFile(p) => String::from_str(
                "Failed to write file at ",
            ).concat(p.as_str()),
            ProjectServiceError::FailedToDeleteFile(p) => String::from_str(
                "Failed to delete file at ",
            ).concat(p.as_str()),
            ProjectServiceError::InvalidFilePath(p) => String::from_str(
                "Cannot access files outside of project dir - tried to access ",
            ).concat(p.as_str()),
        }
    }

    /// The HTTP status under which the error is reported.
    pub fn status_code(&self) -> (code: u16)
        ensures
            code == self@.status_code(),
    {
        match self {
            ProjectServiceError::ProjectNotFound(_) => 404,
            ProjectServiceError::FileNotFound { .. } => 404,
            ProjectServiceError::InvalidFilePath(_) => 400,
            ProjectServiceError::ProjectAlreadyExists(_) => 400,
            ProjectServiceError::FailedToReadDir(_) => 500,
            ProjectServiceError::FailedToReadFile(_) => 500,
            ProjectServiceError::FailedToWriteFile(_) => 500,
            ProjectServiceError::FailedToDeleteFile(_) => 500,
            ProjectServiceError::FailedToDeleteProject(_) => 500,
        }
    }
}

/// The identity of a project: its name and the directory that holds it.
#[derive(Debug, PartialEq, PartialOrd, Eq, Ord)]
pub struct ProjectInfo {
    pub name: String,
    pub dir: String,
}

/// `ProjectInfo` with its texts as character sequences.
pub struct ProjectInfoView {
    pub name: Seq<char>,
    pub dir: Seq<char>,
}

impl View for ProjectInfo {
    type V = ProjectInfoView;

    open spec fn view(&self) -> ProjectInfoView {
        ProjectInfoView { name: self.name@, dir: self.dir@ }
    }
}

impl ProjectInfoView {
    /// The project of the given name under `base`.
    pub open spec fn under(base: Seq<char>, name: Seq<char>) -> ProjectInfoView {
        ProjectInfoView { name, dir: child_of(base, name) }
    }

    /// A project's directory is the child of `base` that bears its name.
    pub open spec fn lies_under(self, base: Seq<char>) -> bool {
        self.dir == child_of(base, self.name)
    }
}

impl Clone for ProjectInfo {
    fn clone(&self) -> (copy: Self)
        ensures
            copy@ == self@,
    {
        ProjectInfo { name: self.name.clone(), dir: self.dir.clone() }
    }
}

/// The views of a list of projects, in order.
pub open spec fn project_views(projects: Seq<ProjectInfo>) -> Seq<ProjectInfoView> {
    projects.map_values(|p: ProjectInfo| p@)
}

/// The views of a list of texts, in order.
pub open spec fn text_views(texts: Seq<String>) -> Seq<Seq<char>> {
    texts.map_values(|t: String| t@)
}

/// The project repository and file store as callers see them.
pub trait ProjectServiceTrait: Send + Sync {
    /// The projects under the base path, ordered by name.
    fn all_projects(&self) -> Result<Vec<ProjectInfo>, ProjectServiceError>;

    /// The project of the given name.
    fn project(&self, name: &str) -> Result<ProjectInfo, ProjectServiceError>;

    /// Creates a project of the given name, seeded with an empty manifest.
    fn create(&self, name: &str) -> Result<ProjectInfo, ProjectServiceError>;

    /// Removes the project with everything in it.
    fn delete(&self, project: &ProjectInfo) -> Result<(), ProjectServiceError>;

    /// The names of the project's files, ordered.
    fn files(&self, project: &ProjectInfo) -> Result<Vec<String>, ProjectServiceError>;

    /// The content of one file of the project.
    fn read_file(&self, project: &ProjectInfo, file: &str) -> Result<String, ProjectServiceError>;

    /// Replaces the content of one file of the project, creating it if
    /// need be, and hands the new content back.
    fn update_file(&self, project: &ProjectInfo, file: &str, content: &str) -> Result<
        String,
        ProjectServiceError,
    >;

    /// Removes one file of the project and hands its last content back.
    fn delete_file(&self, project: &ProjectInfo, file: &str) -> Result<String, ProjectServiceError>;
}

} // verus!
