//! The project repository and the file store over a base directory, as a
//! machine: an operation is begun, the machine names the next request to
//! the file system, and it is resumed with the reply until it reports the
//! operation's result. Nothing here touches the disk.

use vstd::prelude::*;
use crate::path::{
    child_of,
    is_child_name,
    is_single_component,
    join,
    names_child,
    single_component,
};
use crate::services::project::fs::{
    entries_of_kind,
    names_of_kind,
    sort_names,
    sorted_texts,
    DirEntry,
    DirEntryView,
    FsReply,
    FsReplyView,
    FsRequest,
    FsRequestView,
    NodeKind,
};
use crate::services::project::{
    project_views,
    text_views,
    ProjectErrorView,
    ProjectInfo,
    ProjectInfoView,
    ProjectServiceError,
};
use crate::text::{debug_text, owned, quoted};

verus! {

/// The name of the manifest that a new project is seeded with.
pub open spec fn manifest_name() -> Seq<char> {
    "compose.yml"@
}

/// An operation of the project repository or the file store.
#[derive(Debug, PartialEq, Eq)]
pub enum Operation {
    /// List the projects under the base path.
    AllProjects,
    /// Look the project of the given name up.
    Project { name: String },
    /// Create a project of the given name.
    Create { name: String },
    /// Remove a project with everything in it.
    Delete { project: ProjectInfo },
    /// List the files of a project.
    Files { project: ProjectInfo },
    /// Read one file of a project.
    ReadFile { project: ProjectInfo, file: String },
    /// Create or replace one file of a project.
    UpdateFile { project: ProjectInfo, file: String, content: String },
    /// Remove one file of a project.
    DeleteFile { project: ProjectInfo, file: String },
}

/// `Operation` with its texts as character sequences.
pub enum OperationView {
    AllProjects,
    Project { name: Seq<char> },
    Create { name: Seq<char> },
    Delete { project: ProjectInfoView },
    Files { project: ProjectInfoView },
    ReadFile { project: ProjectInfoView, file: Seq<char> },
    UpdateFile { project: ProjectInfoView, file: Seq<char>, content: Seq<char> },
    DeleteFile { project: ProjectInfoView, file: Seq<char> },
}

impl View for Operation {
    type V = OperationView;

    open spec fn view(&self) -> OperationView {
        match self {
            Operation::AllProjects => OperationView::AllProjects,
            Operation::Project { name } => OperationView::Project { name: name@ },
            Operation::Create { name } => OperationView::Create { name: name@ },
            Operation::Delete { project } => OperationView::Delete { project: project@ },
            Operation::Files { project } => OperationView::Files { project: project@ },
            Operation::ReadFile { project, file } => OperationView::ReadFile {
                project: project@,
                file: file@,
            },
            Operation::UpdateFile { project, file, content } => OperationView::UpdateFile {
                project: project@,
                file: file@,
                content: content@,
            },
            Operation::DeleteFile { project, file } => OperationView::DeleteFile {
                project: project@,
                file: file@,
            },
        }
    }
}

/// What a successful operation hands back.
#[derive(Debug, PartialEq, Eq)]
pub enum Outcome {
    /// The projects, ordered by name.
    Projects(Vec<ProjectInfo>),
    /// The project that was found or created.
    Project(ProjectInfo),
    /// The names of a project's files, ordered.
    Files(Vec<String>),
    /// The content of the file that was read, written or removed.
    Content(String),
    /// The project is gone.
    Deleted,
}

/// `Outcome` with its texts as character sequences.
pub enum OutcomeView {
    Projects(Seq<ProjectInfoView>),
    Project(ProjectInfoView),
    Files(Seq<Seq<char>>),
    Content(Seq<char>),
    Deleted,
}

impl View for Outcome {
    type V = OutcomeView;

    open spec fn view(&self) -> OutcomeView {
        match self {
            Outcome::Projects(projects) => OutcomeView::Projects(project_views(projects@)),
            Outcome::Project(project) => OutcomeView::Project(project@),
            Outcome::Files(names) => OutcomeView::Files(text_views(names@)),
            Outcome::Content(text) => OutcomeView::Content(text@),
            Outcome::Deleted => OutcomeView::Deleted,
        }
    }
}

/// What an operation that has asked something of the file system will do
/// with the reply.
#[derive(Debug, PartialEq, Eq)]
pub enum Pending {
    /// Listing the base path, for its projects.
    Projects { base: String },
    /// Probing a project's directory, to look the project up.
    Lookup { name: String, dir: String },
    /// Probing the directory of a project that is to be created.
    CreateProbe { name: String, dir: String },
    /// Creating the directory of a new project.
    CreatingDir { name: String, dir: String },
    /// Writing the empty manifest of a new project.
    Seeding { name: String, dir: String, path: String },
    /// Removing a project's directory.
    Deleting { name: String },
    /// Listing a project's directory, for its files.
    Files { dir: String },
    /// Probing a file that is to be read, and removed after that if
    /// `remove` is set.
    ReadProbe { project: String, file: String, path: String, remove: bool },
    /// Reading a file, to remove it after that if `remove` is set.
    Reading { path: String, remove: bool },
    /// Removing a file whose content was read.
    Removing { path: String, content: String },
    /// Writing a file.
    Writing { path: String, content: String },
}

/// `Pending` with its texts as character sequences.
pub enum PendingView {
    Projects { base: Seq<char> },
    Lookup { name: Seq<char>, dir: Seq<char> },
    CreateProbe { name: Seq<char>, dir: Seq<char> },
    CreatingDir { name: Seq<char>, dir: Seq<char> },
    Seeding { name: Seq<char>, dir: Seq<char>, path: Seq<char> },
    Deleting { name: Seq<char> },
    Files { dir: Seq<char> },
    ReadProbe { project: Seq<char>, file: Seq<char>, path: Seq<char>, remove: bool },
    Reading { path: Seq<char>, remove: bool },
    Removing { path: Seq<char>, content: Seq<char> },
    Writing { path: Seq<char>, content: Seq<char> },
}

impl View for Pending {
    type V = PendingView;

    open spec fn view(&self) -> PendingView {
        match self {
            Pending::Projects { base } => PendingView::Projects { base: base@ },
            Pending::Lookup { name, dir } => PendingView::Lookup { name: name@, dir: dir@ },
            Pending::CreateProbe { name, dir } => PendingView::CreateProbe {
                name: name@,
                dir: dir@,
            },
            Pending::CreatingDir { name, dir } => PendingView::CreatingDir {
                name: name@,
                dir: dir@,
            },
            Pending::Seeding { name, dir, path } => PendingView::Seeding {
                name: name@,
                dir: dir@,
                path: path@,
            },
            Pending::Deleting { name } => PendingView::Deleting { name: name@ },
            Pending::Files { dir } => PendingView::Files { dir: dir@ },
            Pending::ReadProbe { project, file, path, remove } => PendingView::ReadProbe {
                project: project@,
                file: file@,
                path: path@,
                remove: *remove,
            },
            Pending::Reading { path, remove } => PendingView::Reading {
                path: path@,
                remove: *remove,
            },
            Pending::Removing { path, content } => PendingView::Removing {
                path: path@,
                content: content@,
            },
            Pending::Writing { path, content } => PendingView::Writing {
                path: path@,
                content: content@,
            },
        }
    }
}

impl PendingView {
    /// How many more requests the operation can make once the pending one
    /// is answered.
    pub open spec fn requests_left(self) -> nat {
        match self {
            PendingView::CreateProbe { .. } => 2,
            PendingView::CreatingDir { .. } => 1,
            PendingView::ReadProbe { remove, .. } => if remove {
                2
            } else {
                1
            },
            PendingView::Reading { remove, .. } => if remove {
                1
            } else {
                0
            },
            _ => 0,
        }
    }
}

/// Where an operation stands: it asks something of the file system, or it
/// is over.
#[derive(Debug, PartialEq, Eq)]
pub enum Step {
    /// Perform `request` and resume with `pending` and the reply.
    Ask { request: FsRequest, pending: Pending },
    /// The operation's result.
    Done(Result<Outcome, ProjectServiceError>),
}

/// `Step` with its texts as character sequences.
pub enum StepView {
    Ask { request: FsRequestView, pending: PendingView },
    Done(Result<OutcomeView, ProjectErrorView>),
}

impl View for Step {
    type V = StepView;

    open spec fn view(&self) -> StepView {
        match self {
            Step::Ask { request, pending } => StepView::Ask {
                request: request@,
                pending: pending@,
            },
            Step::Done(Ok(outcome)) => StepView::Done(Ok(outcome@)),
            Step::Done(Err(error)) => StepView::Done(Err(error@)),
        }
    }
}

/// The projects of the given names under `base`, in the order of the
/// names.
pub open spec fn projects_under(base: Seq<char>, names: Seq<Seq<char>>) -> Seq<ProjectInfoView> {
    names.map_values(|name: Seq<char>| ProjectInfoView::under(base, name))
}

/// The projects that a listing of `base` shows: one for each directory,
/// ordered by name.
pub open spec fn listed_projects(base: Seq<char>, entries: Seq<DirEntryView>) -> Seq<
    ProjectInfoView,
> {
    projects_under(base, sorted_texts(names_of_kind(entries, NodeKind::Dir)))
}

/// The files that a listing of a project's directory shows: the names of
/// the regular files, ordered.
pub open spec fn listed_files(entries: Seq<DirEntryView>) -> Seq<Seq<char>> {
    sorted_texts(names_of_kind(entries, NodeKind::File))
}

/// The first step of an operation over the base path `base`.
///
/// A name that the sandbox refuses never reaches the file system: every
/// operation on a file and the creation of a project reject it as an
/// invalid path. A lookup is no join and asks less: it probes every name
/// that can name a child of the base path, and finds nothing by any
/// other.
pub open spec fn first_step(base: Seq<char>, op: OperationView) -> StepView {
    match op {
        OperationView::AllProjects => StepView::Ask {
            request: FsRequestView::ListDir { path: base },
            pending: PendingView::Projects { base },
        },
        OperationView::Project { name } => if names_child(name) {
            StepView::Ask {
                request: FsRequestView::Probe { path: child_of(base, name) },
                pending: PendingView::Lookup { name, dir: child_of(base, name) },
            }
        } else {
            StepView::Done(Err(ProjectErrorView::ProjectNotFound(name)))
        },
        OperationView::Create { name } => if single_component(name) {
            StepView::Ask {
                request: FsRequestView::Probe { path: child_of(base, name) },
                pending: PendingView::CreateProbe { name, dir: child_of(base, name) },
            }
        } else {
            StepView::Done(Err(ProjectErrorView::InvalidFilePath(name)))
        },
        OperationView::Delete { project } => StepView::Ask {
            request: FsRequestView::RemoveDirAll { path: project.dir },
            pending: PendingView::Deleting { name: project.name },
        },
        OperationView::Files { project } => StepView::Ask {
            request: FsRequestView::ListDir { path: project.dir },
            pending: PendingView::Files { dir: project.dir },
        },
        OperationView::ReadFile { project, file } => if single_component(file) {
            StepView::Ask {
                request: FsRequestView::Probe { path: child_of(project.dir, file) },
                pending: PendingView::ReadProbe {
                    project: project.name,
                    file,
                    path: child_of(project.dir, file),
                    remove: false,
                },
            }
        } else {
            StepView::Done(Err(ProjectErrorView::InvalidFilePath(file)))
        },
        OperationView::UpdateFile { project, file, content } => if single_component(file) {
            StepView::Ask {
                request: FsRequestView::WriteFile { path: child_of(project.dir, file), content },
                pending: PendingView::Writing { path: child_of(project.dir, file), content },
            }
        } else {
            StepView::Done(Err(ProjectErrorView::InvalidFilePath(file)))
        },
        OperationView::DeleteFile { project, file } => if single_component(file) {
            StepView::Ask {
                request: FsRequestView::Probe { path: child_of(project.dir, file) },
                pending: PendingView::ReadProbe {
                    project: project.name,
                    file,
                    path: child_of(project.dir, file),
                    remove: true,
                },
            }
        } else {
            StepView::Done(Err(ProjectErrorView::InvalidFilePath(file)))
        },
    }
}

/// The step that follows when the pending request is answered by `reply`.
/// A reply of another shape than the request calls for counts as a
/// failure of the request.
pub open spec fn next_step(pending: PendingView, reply: FsReplyView) -> StepView {
    match pending {
        PendingView::Projects { base } => match reply {
            FsReplyView::Listing(entries) => StepView::Done(
                Ok(OutcomeView::Projects(listed_projects(base, entries))),
            ),
            _ => StepView::Done(Err(ProjectErrorView::FailedToReadDir(debug_text(base)))),
        },
        PendingView::Lookup { name, dir } => match reply {
            FsReplyView::Probed(Some(NodeKind::Dir)) => StepView::Done(
                Ok(OutcomeView::Project(ProjectInfoView { name, dir })),
            ),
            FsReplyView::Probed(_) => StepView::Done(Err(ProjectErrorView::ProjectNotFound(name))),
            _ => StepView::Done(Err(ProjectErrorView::FailedToReadDir(debug_text(dir)))),
        },
        PendingView::CreateProbe { name, dir } => match reply {
            FsReplyView::Probed(Some(_)) => StepView::Done(
                Err(ProjectErrorView::ProjectAlreadyExists(name)),
            ),
            _ => StepView::Ask {
                request: FsRequestView::CreateDir { path: dir },
                pending: PendingView::CreatingDir { name, dir },
            },
        },
        PendingView::CreatingDir { name, dir } => StepView::Ask {
            request: FsRequestView::WriteFile {
                path: child_of(dir, manifest_name()),
                content: Seq::empty(),
            },
            pending: PendingView::Seeding { name, dir, path: child_of(dir, manifest_name()) },
        },
        PendingView::Seeding { name, dir, path } => match reply {
            FsReplyView::Done => StepView::Done(
                Ok(OutcomeView::Project(ProjectInfoView { name, dir })),
            ),
            _ => StepView::Done(Err(ProjectErrorView::FailedToWriteFile(debug_text(path)))),
        },
        PendingView::Deleting { name } => match reply {
            FsReplyView::Done => StepView::Done(Ok(OutcomeView::Deleted)),
            _ => StepView::Done(Err(ProjectErrorView::FailedToDeleteProject(name))),
        },
        PendingView::Files { dir } => match reply {
            FsReplyView::Listing(entries) => StepView::Done(
                Ok(OutcomeView::Files(listed_files(entries))),
            ),
            _ => StepView::Done(Err(ProjectErrorView::FailedToReadDir(debug_text(dir)))),
        },
        PendingView::ReadProbe { project, file, path, remove } => match reply {
            FsReplyView::Probed(None) => StepView::Done(
                Err(ProjectErrorView::FileNotFound { project, file }),
            ),
            FsReplyView::Probed(Some(_)) => StepView::Ask {
                request: FsRequestView::ReadFile { path },
                pending: PendingView::Reading { path, remove },
            },
            _ => StepView::Done(Err(ProjectErrorView::FailedToReadFile(debug_text(path)))),
        },
        PendingView::Reading { path, remove } => match reply {
            FsReplyView::Content(content) => if remove {
                StepView::Ask {
                    request: FsRequestView::RemoveFile { path },
                    pending: PendingView::Removing { path, content },
                }
            } else {
                StepView::Done(Ok(OutcomeView::Content(content)))
            },
            _ => StepView::Done(Err(ProjectErrorView::FailedToReadFile(debug_text(path)))),
        },
        PendingView::Removing { path, content } => match reply {
            FsReplyView::Done => StepView::Done(Ok(OutcomeView::Content(content))),
            _ => StepView::Done(Err(ProjectErrorView::FailedToDeleteFile(debug_text(path)))),
        },
        PendingView::Writing { path, content } => match reply {
            FsReplyView::Done => StepView::Done(Ok(OutcomeView::Content(content))),
            _ => StepView::Done(Err(ProjectErrorView::FailedToWriteFile(debug_text(path)))),
        },
    }
}

/// The project repository and the file store over one base directory.
pub struct ProjectService {
    base_path: String,
}

impl Default for ProjectService {
    fn default() -> (service: Self)
        ensures
            service.base() == Seq::<char>::empty(),
    {
        ProjectService { base_path: String::new() }
    }
}

impl ProjectService {
    /// The base directory, under which every project lies.
    pub closed spec fn base(&self) -> Seq<char> {
        self.base_path@
    }

    /// A service over the projects under `base_path`.
    pub fn new(base_path: String) -> (service: ProjectService)
        ensures
            service.base() == base_path@,
    {
        Self { base_path }
    }

    /// The base directory.
    pub fn base_path(&self) -> (path: &str)
        ensures
            path@ == self.base(),
    {
        self.base_path.as_str()
    }

    /// The path sandbox: hands a name back as a relative path if it is a
    /// single path component, and rejects it as an invalid path if not.
    pub fn save_file_path(file: &str) -> (res: Result<String, ProjectServiceError>)
        ensures
            match res {
                Ok(path) => single_component(file@) && path@ == file@,
                Err(e) => !single_component(file@) && e@ == ProjectErrorView::InvalidFilePath(
                    file@,
                ),
            },
    {
        if !is_single_component(file) {
            return Err(ProjectServiceError::InvalidFilePath(owned(file)));
        }
        Ok(owned(file))
    }

    /// The projects that a listing of `base` shows.
    fn projects_listed(base: &str, entries: &Vec<DirEntry>) -> (projects: Vec<ProjectInfo>)
        ensures
            project_views(projects@) == listed_projects(
                base@,
                crate::services::project::fs::entry_views(entries@),
            ),
    {
        let names = sort_names(entries_of_kind(entries, NodeKind::Dir));
        let mut projects: Vec<ProjectInfo> = Vec::new();
        let mut i: usize = 0;
        while i < names.len()
            invariant
                i <= names.len(),
                projects.len() == i,
                forall|k: int|
                    0 <= k < i ==> (#[trigger] projects@[k])@ == ProjectInfoView::under(
                        base@,
                        names@[k]@,
                    ),
            decreases names.len() - i,
        {
            let name = names[i].clone();
            let dir = join(base, name.as_str());
            projects.push(ProjectInfo { name, dir });
            i += 1;
        }
        assert(project_views(projects@) =~= projects_under(base@, text_views(names@)));
        projects
    }

    /// Begins an operation: the first thing to ask of the file system, or
    /// the result at once where the operation's name is refused.
    pub fn begin(&self, op: Operation) -> (step: Step)
        ensures
            step@ == first_step(self.base(), op@),
    {
        match op {
            Operation::AllProjects => Step::Ask {
                request: FsRequest::ListDir { path: self.base_path.clone() },
                pending: Pending::Projects { base: self.base_path.clone() },
            },
            Operation::Project { name } => {
                if !is_child_name(name.as_str()) {
                    return Step::Done(Err(ProjectServiceError::ProjectNotFound(name)));
                }
                let dir = join(self.base_path.as_str(), name.as_str());
                Step::Ask {
                    request: FsRequest::Probe { path: dir.clone() },
                    pending: Pending::Lookup { name, dir },
                }
            },
            Operation::Create { name } => {
                match Self::save_file_path(name.as_str()) {
                    Err(e) => Step::Done(Err(e)),
                    Ok(relative) => {
                        let dir = join(self.base_path.as_str(), relative.as_str());
                        Step::Ask {
                            request: FsRequest::Probe { path: dir.clone() },
                            pending: Pending::CreateProbe { name, dir },
                        }
                    },
                }
            },
            Operation::Delete { project } => Step::Ask {
                request: FsRequest::RemoveDirAll { path: project.dir },
                pending: Pending::Deleting { name: project.name },
            },
            Operation::Files { project } => Step::Ask {
                request: FsRequest::ListDir { path: project.dir.clone() },
                pending: Pending::Files { dir: project.dir },
            },
            Operation::ReadFile { project, file } => Self::begin_read(project, file, false),
            Operation::UpdateFile { project, file, content } => {
                match Self::save_file_path(file.as_str()) {
                    Err(e) => Step::Done(Err(e)),
                    Ok(relative) => {
                        let path = join(project.dir.as_str(), relative.as_str());
                        Step::Ask {
                            request: FsRequest::WriteFile {
                                path: path.clone(),
                                content: content.clone(),
                            },
                            pending: Pending::Writing { path, content },
                        }
                    },
                }
            },
            Operation::DeleteFile { project, file } => Self::begin_read(project, file, true),
        }
    }

    /// Begins the listing of the projects under the base path.
    pub fn all_projects(&self) -> (step: Step)
        ensures
            step@ == first_step(self.base(), OperationView::AllProjects),
    {
        self.begin(Operation::AllProjects)
    }

    /// Begins the lookup of the project of the given name.
    pub fn project(&self, name: &str) -> (step: Step)
        ensures
            step@ == first_step(self.base(), OperationView::Project { name: name@ }),
    {
        self.begin(Operation::Project { name: owned(name) })
    }

    /// Begins the creation of a project of the given name.
    pub fn create(&self, name: &str) -> (step: Step)
        ensures
            step@ == first_step(self.base(), OperationView::Create { name: name@ }),
    {
        self.begin(Operation::Create { name: owned(name) })
    }

    /// Begins the removal of a project with everything in it.
    pub fn delete(&self, project: &ProjectInfo) -> (step: Step)
        ensures
            step@ == first_step(self.base(), OperationView::Delete { project: project@ }),
    {
        self.begin(Operation::Delete { project: project.clone() })
    }

    /// Begins the listing of a project's files.
    pub fn files(&self, project: &ProjectInfo) -> (step: Step)
        ensures
            step@ == first_step(self.base(), OperationView::Files { project: project@ }),
    {
        self.begin(Operation::Files { project: project.clone() })
    }

    /// Begins the reading of one file of a project.
    pub fn read_file(&self, project: &ProjectInfo, file: &str) -> (step: Step)
        ensures
            step@ == first_step(
                self.base(),
                OperationView::ReadFile { project: project@, file: file@ },
            ),
    {
        self.begin(Operation::ReadFile { project: project.clone(), file: owned(file) })
    }

    /// Begins the writing of one file of a project.
    pub fn update_file(&self, project: &ProjectInfo, file: &str, content: &str) -> (step: Step)
        ensures
            step@ == first_step(
                self.base(),
                OperationView::UpdateFile { project: project@, file: file@, content: content@ },
            ),
    {
        self.begin(
            Operation::UpdateFile {
                project: project.clone(),
                file: owned(file),
                content: owned(content),
            },
        )
    }

    /// Begins the removal of one file of a project.
    pub fn delete_file(&self, project: &ProjectInfo, file: &str) -> (step: Step)
        ensures
            step@ == first_step(
                self.base(),
                OperationView::DeleteFile { project: project@, file: file@ },
            ),
    {
        self.begin(Operation::DeleteFile { project: project.clone(), file: owned(file) })
    }

    /// The first step of reading a file, whether to hand its content out
    /// or to remove it afterwards.
    fn begin_read(project: ProjectInfo, file: String, remove: bool) -> (step: Step)
        ensures
            step@ == if single_component(file@) {
                StepView::Ask {
                    request: FsRequestView::Probe { path: child_of(project@.dir, file@) },
                    pending: PendingView::ReadProbe {
                        project: project@.name,
                        file: file@,
                        path: child_of(project@.dir, file@),
                        remove,
                    },
                }
            } else {
                StepView::Done(Err(ProjectErrorView::InvalidFilePath(file@)))
            },
    {
        match Self::save_file_path(file.as_str()) {
            Err(e) => Step::Done(Err(e)),
            Ok(relative) => {
                let path = join(project.dir.as_str(), relative.as_str());
                Step::Ask {
                    request: FsRequest::Probe { path: path.clone() },
                    pending: Pending::ReadProbe { project: project.name, file, path, remove },
                }
            },
        }
    }

    /// Resumes an operation with the reply to the request it made: the
    /// next request, or the operation's result.
    pub fn resume(pending: Pending, reply: FsReply) -> (step: Step)
        ensures
            step@ == next_step(pending@, reply@),
    {
        match pending {
            Pending::Projects { base } => match reply {
                FsReply::Listing(entries) => Step::Done(
                    Ok(Outcome::Projects(Self::projects_listed(base.as_str(), &entries))),
                ),
                _ => Step::Done(Err(ProjectServiceError::FailedToReadDir(quoted(base.as_str())))),
            },
            Pending::Lookup { name, dir } => match reply {
                FsReply::Probed(Some(NodeKind::Dir)) => Step::Done(
                    Ok(Outcome::Project(ProjectInfo { name, dir })),
                ),
                FsReply::Probed(_) => Step::Done(Err(ProjectServiceError::ProjectNotFound(name))),
                _ => Step::Done(Err(ProjectServiceError::FailedToReadDir(quoted(dir.as_str())))),
            },
            Pending::CreateProbe { name, dir } => match reply {
                FsReply::Probed(Some(_)) => Step::Done(
                    Err(ProjectServiceError::ProjectAlreadyExists(name)),
                ),
                _ => Step::Ask {
                    request: FsRequest::CreateDir { path: dir.clone() },
                    pending: Pending::CreatingDir { name, dir },
                },
            },
            Pending::CreatingDir { name, dir } => {
                let path = join(dir.as_str(), "compose.yml");
                Step::Ask {
                    request: FsRequest::WriteFile { path: path.clone(), content: String::new() },
                    pending: Pending::Seeding { name, dir, path },
                }
            },
            Pending::Seeding { name, dir, path } => match reply {
                FsReply::Done => Step::Done(Ok(Outcome::Project(ProjectInfo { name, dir }))),
                _ => Step::Done(
                    Err(ProjectServiceError::FailedToWriteFile(quoted(path.as_str()))),
                ),
            },
            Pending::Deleting { name } => match reply {
                FsReply::Done => Step::Done(Ok(Outcome::Deleted)),
                _ => Step::Done(Err(ProjectServiceError::FailedToDeleteProject(name))),
            },
            Pending::Files { dir } => match reply {
                FsReply::Listing(entries) => Step::Done(
                    Ok(Outcome::Files(sort_names(entries_of_kind(&entries, NodeKind::File)))),
                ),
                _ => Step::Done(Err(ProjectServiceError::FailedToReadDir(quoted(dir.as_str())))),
            },
            Pending::ReadProbe { project, file, path, remove } => match reply {
                FsReply::Probed(None) => Step::Done(
                    Err(ProjectServiceError::FileNotFound { project, file }),
                ),
                FsReply::Probed(Some(_)) => Step::Ask {
                    request: FsRequest::ReadFile { path: path.clone() },
                    pending: Pending::Reading { path, remove },
                },
                _ => Step::Done(Err(ProjectServiceError::FailedToReadFile(quoted(path.as_str())))),
            },
            Pending::Reading { path, remove } => match reply {
                FsReply::Content(content) => if remove {
                    Step::Ask {
                        request: FsRequest::RemoveFile { path: path.clone() },
                        pending: Pending::Removing { path, content },
                    }
                } else {
                    Step::Done(Ok(Outcome::Content(content)))
                },
                _ => Step::Done(Err(ProjectServiceError::FailedToReadFile(quoted(path.as_str())))),
            },
            Pending::Removing { path, content } => match reply {
                FsReply::Done => Step::Done(Ok(Outcome::Content(content))),
                _ => Step::Done(
                    Err(ProjectServiceError::FailedToDeleteFile(quoted(path.as_str()))),
                ),
            },
            Pending::Writing { path, content } => match reply {
                FsReply::Done => Step::Done(Ok(Outcome::Content(content))),
                _ => Step::Done(
                    Err(ProjectServiceError::FailedToWriteFile(quoted(path.as_str()))),
                ),
            },
        }
    }
}

} // verus!
