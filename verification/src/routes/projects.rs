//! What is reported of projects: their names, whether they run, and
//! their files.

use vstd::prelude::*;
use crate::services::container::{ContainerServiceError, ContainerServiceTrait};
use crate::services::project::{
    text_views,
    ProjectInfo,
    ProjectServiceError,
    ProjectServiceTrait,
};
use crate::text::owned;
use crate::AppError;

verus! {

/// The word for a project's state: `running` if its stack is up,
/// `stopped` if not.
pub open spec fn status_text(is_online: bool) -> Seq<char> {
    if is_online {
        "running"@
    } else {
        "stopped"@
    }
}

/// Whether `status` is one of the two words for a project's state.
pub open spec fn is_status(status: Seq<char>) -> bool {
    status == status_text(true) || status == status_text(false)
}

/// The word for a project's state.
pub fn status_label(is_online: bool) -> (label: &'static str)
    ensures
        label@ == status_text(is_online),
{
    if is_online {
        "running"
    } else {
        "stopped"
    }
}

/// A project in the list of all projects.
#[derive(Debug, PartialEq, Eq)]
pub struct ProjectSummary {
    pub name: String,
    pub status: String,
}

/// `ProjectSummary` with its texts as character sequences.
pub struct ProjectSummaryView {
    pub name: Seq<char>,
    pub status: Seq<char>,
}

impl View for ProjectSummary {
    type V = ProjectSummaryView;

    open spec fn view(&self) -> ProjectSummaryView {
        ProjectSummaryView { name: self.name@, status: self.status@ }
    }
}

/// A project with its files.
#[derive(Debug, PartialEq, Eq)]
pub struct ProjectDetails {
    pub name: String,
    pub status: String,
    pub files: Vec<String>,
}

/// `ProjectDetails` with its texts as character sequences.
pub struct ProjectDetailsView {
    pub name: Seq<char>,
    pub status: Seq<char>,
    pub files: Seq<Seq<char>>,
}

impl View for ProjectDetails {
    type V = ProjectDetailsView;

    open spec fn view(&self) -> ProjectDetailsView {
        ProjectDetailsView { name: self.name@, status: self.status@, files: text_views(self.files@) }
    }
}

/// Whether `list` is the list of the projects with their states: each
/// project with the word for its state, in the order of the projects,
/// ending with the shorter of the two where they differ in length.
pub open spec fn lists_summaries(
    list: Seq<ProjectSummary>,
    projects: Seq<ProjectInfo>,
    are_online: Seq<bool>,
) -> bool {
    &&& list.len() == if projects.len() <= are_online.len() {
        projects.len()
    } else {
        are_online.len()
    }
    &&& forall|i: int|
        0 <= i < list.len() ==> (#[trigger] list[i])@ == (ProjectSummaryView {
            name: projects[i]@.name,
            status: status_text(are_online[i]),
        })
}

/// The list of all projects: each project with the word for its state,
/// in the order of the projects. Where the two lists differ in length,
/// the list ends with the shorter.
pub fn summaries(projects: &Vec<ProjectInfo>, are_online: &Vec<bool>) -> (list: Vec<ProjectSummary>)
    ensures
        lists_summaries(list@, projects@, are_online@),
{
    let mut list: Vec<ProjectSummary> = Vec::new();
    let mut i: usize = 0;
    while i < projects.len() && i < are_online.len()
        invariant
            i <= projects@.len(),
            i <= are_online@.len(),
            list@.len() == i,
            forall|k: int|
                0 <= k < i ==> (#[trigger] list@[k])@ == (ProjectSummaryView {
                    name: projects@[k]@.name,
                    status: status_text(are_online@[k]),
                }),
        decreases projects@.len() - i,
    {
        list.push(
            ProjectSummary {
                name: projects[i].name.clone(),
                status: owned(status_label(are_online[i])),
            },
        );
        i += 1;
    }
    list
}

/// A project's details: its name, the word for its state, and its files
/// as given.
pub fn details(project_info: &ProjectInfo, is_online: bool, files: Vec<String>) -> (shown:
    ProjectDetails)
    ensures
        shown@ == (ProjectDetailsView {
            name: project_info@.name,
            status: status_text(is_online),
            files: text_views(files@),
        }),
{
    ProjectDetails {
        name: project_info.name.clone(),
        status: owned(status_label(is_online)),
        files,
    }
}

/// Whether `res` is the list of all projects as the two services report
/// it: the project service answers with its projects, the container
/// service is asked about exactly these, in their order, and the list
/// pairs each project with the word for the state it is reported in. A
/// failure of the project service is passed on and the container service
/// is not asked; a failure of the container service is passed on.
pub open spec fn all_projects_listed<P: ProjectServiceTrait, C: ContainerServiceTrait>(
    project_service: &P,
    container_service: &C,
    res: Result<Vec<ProjectSummary>, AppError>,
) -> bool {
    exists|listed: Result<Vec<ProjectInfo>, ProjectServiceError>|
        #[trigger] call_ensures(P::all_projects, (project_service,), listed) && match listed {
            Err(e) => res == Err::<Vec<ProjectSummary>, AppError>(AppError::Project(e)),
            Ok(projects) => exists|asked: &[ProjectInfo], flags: Result<
                Vec<bool>,
                ContainerServiceError,
            >|
                asked@ == projects@ && #[trigger] call_ensures(
                    C::are_online,
                    (container_service, asked),
                    flags,
                ) && match flags {
                    Err(e) => res == Err::<Vec<ProjectSummary>, AppError>(AppError::Container(e)),
                    Ok(are_online) => res matches Ok(list) && lists_summaries(
                        list@,
                        projects@,
                        are_online@,
                    ),
                },
        }
}

/// The list of all projects as the two services report it: the projects
/// of the one with their states from the other. Fails as the service
/// that failed first.
pub fn get_all_projects<P: ProjectServiceTrait, C: ContainerServiceTrait>(
    project_service: &P,
    container_service: &C,
) -> (res: Result<Vec<ProjectSummary>, AppError>)
    ensures
        all_projects_listed(project_service, container_service, res),
        res matches Ok(list) ==> forall|i: int|
            0 <= i < list@.len() ==> is_status((#[trigger] list@[i])@.status),
{
    let projects = match project_service.all_projects() {
        Ok(projects) => projects,
        Err(e) => {
            return Err(AppError::Project(e));
        },
    };
    let are_online = match container_service.are_online(projects.as_slice()) {
        Ok(flags) => flags,
        Err(e) => {
            return Err(AppError::Container(e));
        },
    };
    Ok(summaries(&projects, &are_online))
}

/// Whether `res` shows the project as the two services report it: the
/// container service answers whether this project's stack is up, the
/// project service answers with this project's files, and the details
/// bear the project's name, the word for that state, and those files. A
/// failure of the container service is passed on and the files are not
/// asked for; a failure of the project service is passed on.
pub open spec fn details_shown<P: ProjectServiceTrait, C: ContainerServiceTrait>(
    project_info: &ProjectInfo,
    project_service: &P,
    container_service: &C,
    res: Result<ProjectDetails, AppError>,
) -> bool {
    exists|online: Result<bool, ContainerServiceError>|
        #[trigger] call_ensures(C::is_online, (container_service, project_info), online)
            && match online {
            Err(e) => res == Err::<ProjectDetails, AppError>(AppError::Container(e)),
            Ok(up) => exists|files: Result<Vec<String>, ProjectServiceError>|
                #[trigger] call_ensures(P::files, (project_service, project_info), files)
                    && match files {
                    Err(e) => res == Err::<ProjectDetails, AppError>(AppError::Project(e)),
                    Ok(names) => res matches Ok(shown) && shown@ == (ProjectDetailsView {
                        name: project_info@.name,
                        status: status_text(up),
                        files: text_views(names@),
                    }),
                },
        }
}

/// A project's details as the two services report them. Fails as the
/// service that failed first; the state is asked before the files.
pub fn project_details<P: ProjectServiceTrait, C: ContainerServiceTrait>(
    project_info: &ProjectInfo,
    project_service: &P,
    container_service: &C,
) -> (res: Result<ProjectDetails, AppError>)
    ensures
        details_shown(project_info, project_service, container_service, res),
        res matches Ok(shown) ==> shown@.name == project_info@.name && is_status(shown@.status),
{
    let is_online = match container_service.is_online(project_info) {
        Ok(up) => up,
        Err(e) => {
            return Err(AppError::Container(e));
        },
    };
    let files = match project_service.files(project_info) {
        Ok(files) => files,
        Err(e) => {
            return Err(AppError::Project(e));
        },
    };
    Ok(details(project_info, is_online, files))
}

/// A file of a project with its content.
#[derive(Debug, PartialEq, Eq)]
pub struct FileContent {
    pub name: String,
    pub content: String,
}

/// `FileContent` with its texts as character sequences.
pub struct FileContentView {
    pub name: Seq<char>,
    pub content: Seq<char>,
}

impl View for FileContent {
    type V = FileContentView;

    open spec fn view(&self) -> FileContentView {
        FileContentView { name: self.name@, content: self.content@ }
    }
}

/// What is shown of a project: one of its files, or its details.
#[derive(Debug, PartialEq, Eq)]
pub enum Shown {
    File(FileContent),
    Project(ProjectDetails),
}

/// A file under the name it was asked for by.
pub fn file_content(file: &str, content: String) -> (shown: FileContent)
    ensures
        shown@ == (FileContentView { name: file@, content: content@ }),
{
    FileContent { name: owned(file), content }
}

/// Whether `res` shows the project of the given name as the two
/// services report it: the project service answers the lookup of the
/// name; where a file is asked for, it answers with the content of that
/// file of the project found, and the file is shown under the name it
/// was asked for by; where none is, the project found is shown with its
/// details. A lookup that fails is passed on and nothing more is asked;
/// so is every later failure.
pub open spec fn project_shown<P: ProjectServiceTrait, C: ContainerServiceTrait>(
    project_service: &P,
    container_service: &C,
    project_name: &str,
    file: Option<&str>,
    res: Result<Shown, AppError>,
) -> bool {
    exists|looked: Result<ProjectInfo, ProjectServiceError>|
        #[trigger] call_ensures(P::project, (project_service, project_name), looked)
            && match looked {
            Err(e) => res == Err::<Shown, AppError>(AppError::Project(e)),
            Ok(info) => match file {
                Some(name) => exists|read: Result<String, ProjectServiceError>|
                    #[trigger] call_ensures(P::read_file, (project_service, &info, name), read)
                        && match read {
                        Err(e) => res == Err::<Shown, AppError>(AppError::Project(e)),
                        Ok(content) => res matches Ok(Shown::File(shown)) && shown@ == (
                        FileContentView { name: name@, content: content@ }),
                    },
                None => exists|details: Result<ProjectDetails, AppError>| #[trigger]
                    details_shown(&info, project_service, container_service, details)
                        && match details {
                        Err(e) => res == Err::<Shown, AppError>(e),
                        Ok(shown) => res == Ok::<Shown, AppError>(Shown::Project(shown)),
                    },
            },
        }
}

/// Shows a project: the file that is asked for, if one is, else the
/// project's details. Fails as the service that failed first.
pub fn get_project_details<P: ProjectServiceTrait, C: ContainerServiceTrait>(
    project_service: &P,
    container_service: &C,
    project_name: &str,
    file: Option<&str>,
) -> (res: Result<Shown, AppError>)
    ensures
        project_shown(project_service, container_service, project_name, file, res),
        res matches Ok(shown) ==> match file {
            Some(name) => shown matches Shown::File(content) && content@.name == name@,
            None => shown matches Shown::Project(details) && is_status(details@.status),
        },
{
    let project_info = match project_service.project(project_name) {
        Ok(info) => info,
        Err(e) => {
            return Err(AppError::Project(e));
        },
    };
    match file {
        Some(name) => match project_service.read_file(&project_info, name) {
            Ok(content) => Ok(Shown::File(file_content(name, content))),
            Err(e) => Err(AppError::Project(e)),
        },
        None => match project_details(&project_info, project_service, container_service) {
            Ok(details) => Ok(Shown::Project(details)),
            Err(e) => Err(e),
        },
    }
}

/// Whether `res` tells of the removal as the project service reports
/// it: the service answers the lookup of the name; where a file is
/// named, it is asked to remove that file of the project found, and the
/// file is handed back under its name with the content that the service
/// says it had; where none is named, it is asked to remove the project
/// found, and nothing is handed back. A lookup that fails is passed on
/// and nothing is removed; a removal that fails is passed on.
pub open spec fn project_removed<P: ProjectServiceTrait>(
    project_service: &P,
    project_name: &str,
    file: Option<&str>,
    res: Result<Option<FileContent>, AppError>,
) -> bool {
    exists|looked: Result<ProjectInfo, ProjectServiceError>|
        #[trigger] call_ensures(P::project, (project_service, project_name), looked)
            && match looked {
            Err(e) => res == Err::<Option<FileContent>, AppError>(AppError::Project(e)),
            Ok(info) => match file {
                Some(name) => exists|removed: Result<String, ProjectServiceError>|
                    #[trigger] call_ensures(
                        P::delete_file,
                        (project_service, &info, name),
                        removed,
                    ) && match removed {
                        Err(e) => res == Err::<Option<FileContent>, AppError>(
                            AppError::Project(e),
                        ),
                        Ok(content) => res matches Ok(Some(gone)) && gone@ == (FileContentView {
                            name: name@,
                            content: content@,
                        }),
                    },
                None => exists|removed: Result<(), ProjectServiceError>|
                    #[trigger] call_ensures(P::delete, (project_service, &info), removed)
                        && match removed {
                        Err(e) => res == Err::<Option<FileContent>, AppError>(
                            AppError::Project(e),
                        ),
                        Ok(_) => res == Ok::<Option<FileContent>, AppError>(None),
                    },
            },
        }
}

/// Removes the file that is named, if one is, and hands it back as it
/// was; else removes the whole project. Only the project service is
/// asked, and its failures are passed on.
pub fn delete_project<P: ProjectServiceTrait>(
    project_service: &P,
    project_name: &str,
    file: Option<&str>,
) -> (res: Result<Option<FileContent>, AppError>)
    ensures
        project_removed(project_service, project_name, file, res),
        res matches Err(e) ==> e is Project,
{
    let project_info = match project_service.project(project_name) {
        Ok(info) => info,
        Err(e) => {
            return Err(AppError::Project(e));
        },
    };
    match file {
        Some(name) => match project_service.delete_file(&project_info, name) {
            Ok(content) => Ok(Some(file_content(name, content))),
            Err(e) => Err(AppError::Project(e)),
        },
        None => match project_service.delete(&project_info) {
            Ok(_) => Ok(None),
            Err(e) => Err(AppError::Project(e)),
        },
    }
}

/// Whether `res` shows the project of the given name after its stack
/// was stopped: the project service answers the lookup of the name, the
/// container service answers the request to stop the project found, and
/// that project is then shown as the two services report it. A lookup
/// that fails is passed on and nothing is stopped; a stop that fails is
/// passed on and nothing is shown.
pub open spec fn shown_after_stop<P: ProjectServiceTrait, C: ContainerServiceTrait>(
    project_service: &P,
    container_service: &C,
    project_name: &str,
    res: Result<ProjectDetails, AppError>,
) -> bool {
    exists|looked: Result<ProjectInfo, ProjectServiceError>|
        #[trigger] call_ensures(P::project, (project_service, project_name), looked)
            && match looked {
            Err(e) => res == Err::<ProjectDetails, AppError>(AppError::Project(e)),
            Ok(info) => exists|stopped: Result<(), ContainerServiceError>|
                #[trigger] call_ensures(C::stop, (container_service, &info), stopped)
                    && match stopped {
                    Err(e) => res == Err::<ProjectDetails, AppError>(AppError::Container(e)),
                    Ok(_) => details_shown(&info, project_service, container_service, res),
                },
        }
}

/// Stops a project's stack and shows the project as it is then. Fails as
/// the service that failed first; nothing is stopped for a project that
/// is not found.
pub fn post_stop_project<P: ProjectServiceTrait, C: ContainerServiceTrait>(
    project_service: &P,
    container_service: &C,
    project_name: &str,
) -> (res: Result<ProjectDetails, AppError>)
    ensures
        shown_after_stop(project_service, container_service, project_name, res),
        res matches Ok(details) ==> is_status(details@.status),
{
    let project_info = match project_service.project(project_name) {
        Ok(info) => info,
        Err(e) => {
            return Err(AppError::Project(e));
        },
    };
    match container_service.stop(&project_info) {
        Ok(_) => {},
        Err(e) => {
            return Err(AppError::Container(e));
        },
    }
    project_details(&project_info, project_service, container_service)
}

/// Whether `res` shows the project of the given name after its stack
/// was started: the project service answers the lookup of the name, the
/// container service answers the request to start the project found,
/// and that project is then shown as the two services report it. A
/// lookup that fails is passed on and nothing is started; a start that
/// fails is passed on and nothing is shown.
pub open spec fn shown_after_start<P: ProjectServiceTrait, C: ContainerServiceTrait>(
    project_service: &P,
    container_service: &C,
    project_name: &str,
    res: Result<ProjectDetails, AppError>,
) -> bool {
    exists|looked: Result<ProjectInfo, ProjectServiceError>|
        #[trigger] call_ensures(P::project, (project_service, project_name), looked)
            && match looked {
            Err(e) => res == Err::<ProjectDetails, AppError>(AppError::Project(e)),
            Ok(info) => exists|started: Result<(), ContainerServiceError>|
                #[trigger] call_ensures(C::start, (container_service, &info), started)
                    && match started {
                    Err(e) => res == Err::<ProjectDetails, AppError>(AppError::Container(e)),
                    Ok(_) => details_shown(&info, project_service, container_service, res),
                },
        }
}

/// Starts a project's stack and shows the project as it is then. Fails
/// as the service that failed first; nothing is started for a project
/// that is not found.
pub fn post_start_project<P: ProjectServiceTrait, C: ContainerServiceTrait>(
    project_service: &P,
    container_service: &C,
    project_name: &str,
) -> (res: Result<ProjectDetails, AppError>)
    ensures
        shown_after_start(project_service, container_service, project_name, res),
        res matches Ok(details) ==> is_status(details@.status),
{
    let project_info = match project_service.project(project_name) {
        Ok(info) => info,
        Err(e) => {
            return Err(AppError::Project(e));
        },
    };
    match container_service.start(&project_info) {
        Ok(_) => {},
        Err(e) => {
            return Err(AppError::Container(e));
        },
    }
    project_details(&project_info, project_service, container_service)
}

/// Whether `res` shows the project of the given name after its stack
/// was restarted with the latest images: the project service answers
/// the lookup of the name, the container service answers the request to
/// pull the images of the project found and then the request to start
/// it, and that project is then shown as the two services report it. A
/// lookup that fails is passed on and nothing is pulled; a pull that
/// fails is passed on and nothing is started; a start that fails is
/// passed on and nothing is shown.
pub open spec fn shown_after_restart<P: ProjectServiceTrait, C: ContainerServiceTrait>(
    project_service: &P,
    container_service: &C,
    project_name: &str,
    res: Result<ProjectDetails, AppError>,
) -> bool {
    exists|looked: Result<ProjectInfo, ProjectServiceError>|
        #[trigger] call_ensures(P::project, (project_service, project_name), looked)
            && match looked {
            Err(e) => res == Err::<ProjectDetails, AppError>(AppError::Project(e)),
            Ok(info) => exists|pulled: Result<(), ContainerServiceError>|
                #[trigger] call_ensures(C::pull, (container_service, &info), pulled)
                    && match pulled {
                    Err(e) => res == Err::<ProjectDetails, AppError>(AppError::Container(e)),
                    Ok(_) => exists|started: Result<(), ContainerServiceError>|
                        #[trigger] call_ensures(C::start, (container_service, &info), started)
                            && match started {
                            Err(e) => res == Err::<ProjectDetails, AppError>(
                                AppError::Container(e),
                            ),
                            Ok(_) => details_shown(
                                &info,
                                project_service,
                                container_service,
                                res,
                            ),
                        },
                },
        }
}

/// Restarts a project's stack with the latest images: pulls them, then
/// starts the stack, and shows the project as it is then. Fails as the
/// service that failed first; the stack is not started if the pull
/// fails.
pub fn post_restart_project<P: ProjectServiceTrait, C: ContainerServiceTrait>(
    project_service: &P,
    container_service: &C,
    project_name: &str,
) -> (res: Result<ProjectDetails, AppError>)
    ensures
        shown_after_restart(project_service, container_service, project_name, res),
        res matches Ok(details) ==> is_status(details@.status),
{
    let project_info = match project_service.project(project_name) {
        Ok(info) => info,
        Err(e) => {
            return Err(AppError::Project(e));
        },
    };
    match container_service.pull(&project_info) {
        Ok(_) => {},
        Err(e) => {
            return Err(AppError::Container(e));
        },
    }
    match container_service.start(&project_info) {
        Ok(_) => {},
        Err(e) => {
            return Err(AppError::Container(e));
        },
    }
    project_details(&project_info, project_service, container_service)
}

/// Whether `res` shows the file as the project service wrote it: the
/// service answers the lookup of the name, it is asked to write the
/// given content to the named file of the project found, and the file is
/// shown under its name with the content that the service confirms. A
/// lookup that fails is passed on and nothing is written; a write that
/// fails is passed on.
pub open spec fn file_written<P: ProjectServiceTrait>(
    project_service: &P,
    project_name: &str,
    file: &str,
    content: &str,
    res: Result<FileContent, AppError>,
) -> bool {
    exists|looked: Result<ProjectInfo, ProjectServiceError>|
        #[trigger] call_ensures(P::project, (project_service, project_name), looked)
            && match looked {
            Err(e) => res == Err::<FileContent, AppError>(AppError::Project(e)),
            Ok(info) => exists|written: Result<String, ProjectServiceError>|
                #[trigger] call_ensures(
                    P::update_file,
                    (project_service, &info, file, content),
                    written,
                ) && match written {
                    Err(e) => res == Err::<FileContent, AppError>(AppError::Project(e)),
                    Ok(text) => res matches Ok(shown) && shown@ == (FileContentView {
                        name: file@,
                        content: text@,
                    }),
                },
        }
}

/// Replaces a file of a project and shows it with the content that the
/// project service confirms. Only the project service is asked, and its
/// failures are passed on.
pub fn post_update_project_file<P: ProjectServiceTrait>(
    project_service: &P,
    project_name: &str,
    file: &str,
    content: &str,
) -> (res: Result<FileContent, AppError>)
    ensures
        file_written(project_service, project_name, file, content, res),
        match res {
            Ok(shown) => shown@.name == file@,
            Err(e) => e is Project,
        },
{
    let project_info = match project_service.project(project_name) {
        Ok(info) => info,
        Err(e) => {
            return Err(AppError::Project(e));
        },
    };
    match project_service.update_file(&project_info, file, content) {
        Ok(written) => Ok(file_content(file, written)),
        Err(e) => Err(AppError::Project(e)),
    }
}

/// Whether `res` shows the project of the given name after it was
/// created: the project service answers the request to create a project
/// of that name, and the project it hands back is then shown as the two
/// services report it. A creation that fails is passed on and nothing
/// is shown.
pub open spec fn shown_after_create<P: ProjectServiceTrait, C: ContainerServiceTrait>(
    project_service: &P,
    container_service: &C,
    project_name: &str,
    res: Result<ProjectDetails, AppError>,
) -> bool {
    exists|created: Result<ProjectInfo, ProjectServiceError>|
        #[trigger] call_ensures(P::create, (project_service, project_name), created)
            && match created {
            Err(e) => res == Err::<ProjectDetails, AppError>(AppError::Project(e)),
            Ok(info) => details_shown(&info, project_service, container_service, res),
        }
}

/// Creates a project and shows it as it is then. Fails as the service
/// that failed first.
pub fn post_create_project<P: ProjectServiceTrait, C: ContainerServiceTrait>(
    project_service: &P,
    container_service: &C,
    project_name: &str,
) -> (res: Result<ProjectDetails, AppError>)
    ensures
        shown_after_create(project_service, container_service, project_name, res),
        res matches Ok(details) ==> is_status(details@.status),
{
    let project_info = match project_service.create(project_name) {
        Ok(info) => info,
        Err(e) => {
            return Err(AppError::Project(e));
        },
    };
    project_details(&project_info, project_service, container_service)
}

} // verus!
