use std::collections::BTreeMap;

use backend::services::project::fs::{DirEntry, FsReply, FsRequest, NodeKind};
use backend::services::project::service::{Operation, Outcome, ProjectService, Step};
use backend::services::project::{ProjectInfo, ProjectServiceError};

enum Node {
    Dir,
    File(String),
}

/// A file system held in memory: what lies at each path.
struct Disk {
    nodes: BTreeMap<String, Node>,
    requests: usize,
}

impl Disk {
    fn kind(&self, path: &str) -> Option<NodeKind> {
        match self.nodes.get(path) {
            Some(Node::Dir) => Some(NodeKind::Dir),
            Some(Node::File(_)) => Some(NodeKind::File),
            None => None,
        }
    }

    fn parent_is_dir(&self, path: &str) -> bool {
        match path.rfind('/') {
            Some(at) => matches!(self.nodes.get(&path[..at]), Some(Node::Dir)),
            None => false,
        }
    }

    fn answer(&mut self, request: FsRequest) -> FsReply {
        self.requests += 1;
        match request {
            FsRequest::Probe { path } => FsReply::Probed(self.kind(&path)),
            FsRequest::ListDir { path } => {
                if self.kind(&path) != Some(NodeKind::Dir) {
                    return FsReply::Failed;
                }
                let stem = format!("{}/", path);
                let mut entries = Vec::new();
                // listed in descending order, so that the order of the
                // results is the service's doing
                for (at, node) in self.nodes.iter().rev() {
                    if let Some(name) = at.strip_prefix(&stem) {
                        if !name.contains('/') {
                            let kind = match node {
                                Node::Dir => NodeKind::Dir,
                                Node::File(_) => NodeKind::File,
                            };
                            entries.push(DirEntry { name: name.to_string(), kind });
                        }
                    }
                }
                FsReply::Listing(entries)
            }
            FsRequest::ReadFile { path } => match self.nodes.get(&path) {
                Some(Node::File(content)) => FsReply::Content(content.clone()),
                _ => FsReply::Failed,
            },
            FsRequest::WriteFile { path, content } => {
                if self.kind(&path) == Some(NodeKind::Dir) || !self.parent_is_dir(&path) {
                    return FsReply::Failed;
                }
                self.nodes.insert(path, Node::File(content));
                FsReply::Done
            }
            FsRequest::RemoveFile { path } => {
                if self.kind(&path) != Some(NodeKind::File) {
                    return FsReply::Failed;
                }
                self.nodes.remove(&path);
                FsReply::Done
            }
            FsRequest::CreateDir { path } => {
                if self.nodes.contains_key(&path) || !self.parent_is_dir(&path) {
                    return FsReply::Failed;
                }
                self.nodes.insert(path, Node::Dir);
                FsReply::Done
            }
            FsRequest::RemoveDirAll { path } => {
                if self.kind(&path) != Some(NodeKind::Dir) {
                    return FsReply::Failed;
                }
                let stem = format!("{}/", path);
                self.nodes.retain(|at, _| at != &path && !at.starts_with(&stem));
                FsReply::Done
            }
        }
    }

    fn drive(&mut self, first: Step) -> Result<Outcome, ProjectServiceError> {
        let mut step = first;
        loop {
            match step {
                Step::Done(result) => return result,
                Step::Ask { request, pending } => {
                    let reply = self.answer(request);
                    step = ProjectService::resume(pending, reply);
                }
            }
        }
    }
}

const BASE: &str = "/projects";

fn test_project_service() -> (Disk, ProjectService) {
    let mut nodes = BTreeMap::new();
    nodes.insert("/projects".to_string(), Node::Dir);
    nodes.insert("/projects/project1".to_string(), Node::Dir);
    nodes.insert("/projects/project1/sub".to_string(), Node::Dir);
    nodes.insert("/projects/project2".to_string(), Node::Dir);
    nodes.insert("/projects/project3".to_string(), Node::Dir);
    nodes.insert(
        "/projects/project1/compose.yml".to_string(),
        Node::File("compose.yml".to_string()),
    );
    nodes.insert("/projects/project1/.env".to_string(), Node::File(".env".to_string()));
    nodes.insert(
        "/projects/project1/sub/text.txt".to_string(),
        Node::File("sub file".to_string()),
    );
    nodes.insert(
        "/projects/project3/compose.yml".to_string(),
        Node::File("compose.yml".to_string()),
    );
    (Disk { nodes, requests: 0 }, ProjectService::new(BASE.to_string()))
}

fn info(name: &str) -> ProjectInfo {
    ProjectInfo { name: name.to_string(), dir: format!("{}/{}", BASE, name) }
}

fn all_projects(disk: &mut Disk, service: &ProjectService) -> Result<Vec<ProjectInfo>, ProjectServiceError> {
    match disk.drive(service.all_projects())? {
        Outcome::Projects(projects) => Ok(projects),
        other => panic!("unexpected outcome {:?}", other),
    }
}

fn project(disk: &mut Disk, service: &ProjectService, name: &str) -> Result<ProjectInfo, ProjectServiceError> {
    match disk.drive(service.project(name))? {
        Outcome::Project(project) => Ok(project),
        other => panic!("unexpected outcome {:?}", other),
    }
}

fn create(disk: &mut Disk, service: &ProjectService, name: &str) -> Result<ProjectInfo, ProjectServiceError> {
    match disk.drive(service.create(name))? {
        Outcome::Project(project) => Ok(project),
        other => panic!("unexpected outcome {:?}", other),
    }
}

fn delete(disk: &mut Disk, service: &ProjectService, project: &ProjectInfo) -> Result<(), ProjectServiceError> {
    match disk.drive(service.delete(project))? {
        Outcome::Deleted => Ok(()),
        other => panic!("unexpected outcome {:?}", other),
    }
}

fn files(disk: &mut Disk, service: &ProjectService, project: &ProjectInfo) -> Result<Vec<String>, ProjectServiceError> {
    match disk.drive(service.files(project))? {
        Outcome::Files(names) => Ok(names),
        other => panic!("unexpected outcome {:?}", other),
    }
}

fn read_file(disk: &mut Disk, service: &ProjectService, project: &ProjectInfo, file: &str) -> Result<String, ProjectServiceError> {
    match disk.drive(service.read_file(project, file))? {
        Outcome::Content(content) => Ok(content),
        other => panic!("unexpected outcome {:?}", other),
    }
}

fn update_file(
    disk: &mut Disk,
    service: &ProjectService,
    project: &ProjectInfo,
    file: &str,
    content: &str,
) -> Result<String, ProjectServiceError> {
    match disk.drive(service.update_file(project, file, content))? {
        Outcome::Content(content) => Ok(content),
        other => panic!("unexpected outcome {:?}", other),
    }
}

fn delete_file(disk: &mut Disk, service: &ProjectService, project: &ProjectInfo, file: &str) -> Result<String, ProjectServiceError> {
    match disk.drive(service.begin(Operation::DeleteFile {
        project: project.clone(),
        file: file.to_string(),
    }))? {
        Outcome::Content(content) => Ok(content),
        other => panic!("unexpected outcome {:?}", other),
    }
}

#[test]
fn project_service_get_projects() {
    let (mut disk, project_service) = test_project_service();

    let projects = all_projects(&mut disk, &project_service);

    assert_eq!(projects, Ok(vec![info("project1"), info("project2"), info("project3")]))
}

#[test]
fn get_project() {
    let (mut disk, project_service) = test_project_service();

    let projects = project(&mut disk, &project_service, "project2");

    assert_eq!(
        projects,
        Ok(ProjectInfo { name: "project2".to_string(), dir: "/projects/project2".to_string() })
    )
}

#[test]
fn get_project_unknown() {
    let (mut disk, project_service) = test_project_service();

    let projects = project(&mut disk, &project_service, "project404");

    assert_eq!(projects, Err(ProjectServiceError::ProjectNotFound("project404".to_string())))
}

#[test]
fn get_project_files() {
    let (mut disk, project_service) = test_project_service();

    let project_info = project(&mut disk, &project_service, "project1").unwrap();
    let mut files = files(&mut disk, &project_service, &project_info).unwrap();

    files.sort();

    assert_eq!(files, vec![".env".to_string(), "compose.yml".to_string()])
}

#[test]
fn read_project_file() {
    let (mut disk, project_service) = test_project_service();

    let project_info = project(&mut disk, &project_service, "project1").unwrap();
    let content = read_file(&mut disk, &project_service, &project_info, "compose.yml").unwrap();

    assert_eq!(content, "compose.yml")
}

#[test]
fn read_project_file_not_base() {
    let (mut disk, project_service) = test_project_service();

    let project_info = project(&mut disk, &project_service, "project1").unwrap();
    let error = read_file(&mut disk, &project_service, &project_info, "sub/text.txt");

    assert_eq!(error, Err(ProjectServiceError::InvalidFilePath("sub/text.txt".to_string())));

    let error = read_file(&mut disk, &project_service, &project_info, "../project3/compose.yml");

    assert_eq!(
        error,
        Err(ProjectServiceError::InvalidFilePath("../project3/compose.yml".to_string()))
    );
}

#[test]
fn update_project_file() {
    let (mut disk, project_service) = test_project_service();

    let project_info = project(&mut disk, &project_service, "project1").unwrap();
    let content =
        update_file(&mut disk, &project_service, &project_info, "compose.yml", "newCompose")
            .unwrap();
    assert_eq!(content, "newCompose");

    let content = read_file(&mut disk, &project_service, &project_info, "compose.yml").unwrap();
    assert_eq!(content, "newCompose");
}

#[test]
fn update_project_file_non_existin() {
    let (mut disk, project_service) = test_project_service();

    let project_info = project(&mut disk, &project_service, "project1").unwrap();
    let content =
        update_file(&mut disk, &project_service, &project_info, "newFile", "newContent").unwrap();
    assert_eq!(content, "newContent");

    let content = read_file(&mut disk, &project_service, &project_info, "newFile").unwrap();
    assert_eq!(content, "newContent");
}

#[test]
fn update_project_file_not_base() {
    let (mut disk, project_service) = test_project_service();

    let project_info = project(&mut disk, &project_service, "project1").unwrap();
    let error = update_file(&mut disk, &project_service, &project_info, "sub/text.txt", "content");

    assert_eq!(error, Err(ProjectServiceError::InvalidFilePath("sub/text.txt".to_string())));

    let error = update_file(
        &mut disk,
        &project_service,
        &project_info,
        "../project3/compose.yml",
        "content",
    );

    assert_eq!(
        error,
        Err(ProjectServiceError::InvalidFilePath("../project3/compose.yml".to_string()))
    );
}

#[test]
fn project_service_create_new_project() {
    let (mut disk, project_service) = test_project_service();

    let project_info = create(&mut disk, &project_service, "newProject");

    assert_eq!(
        project_info,
        Ok(ProjectInfo {
            name: "newProject".to_string(),
            dir: "/projects/newProject".to_string(),
        })
    );

    let files = files(&mut disk, &project_service, &project_info.unwrap());

    assert_eq!(files, Ok(vec!["compose.yml".to_string()]));
}

#[test]
fn project_service_create_already_existing_project() {
    let (mut disk, project_service) = test_project_service();

    let project_info = create(&mut disk, &project_service, "project1");

    assert_eq!(
        project_info,
        Err(ProjectServiceError::ProjectAlreadyExists("project1".to_string()))
    );
}

#[test]
fn create_invalid_project() {
    let (mut disk, project_service) = test_project_service();

    let error = create(&mut disk, &project_service, "test/newProject");

    assert_eq!(error, Err(ProjectServiceError::InvalidFilePath("test/newProject".to_string())));

    let error = create(&mut disk, &project_service, "../newProject");

    assert_eq!(error, Err(ProjectServiceError::InvalidFilePath("../newProject".to_string())));
}

#[test]
fn delete_project_file() {
    let (mut disk, project_service) = test_project_service();

    let project_info = project(&mut disk, &project_service, "project1").unwrap();
    delete_file(&mut disk, &project_service, &project_info, "compose.yml").unwrap();

    let err = read_file(&mut disk, &project_service, &project_info, "compose.yml");
    assert_eq!(
        err,
        Err(ProjectServiceError::FileNotFound {
            project: "project1".to_string(),
            file: "compose.yml".to_string()
        })
    );
}

#[test]
fn delete_project_unknown_file() {
    let (mut disk, project_service) = test_project_service();

    let project_info = project(&mut disk, &project_service, "project1").unwrap();
    let err = delete_file(&mut disk, &project_service, &project_info, "unknown.txt");

    assert_eq!(
        err,
        Err(ProjectServiceError::FileNotFound {
            project: "project1".to_string(),
            file: "unknown.txt".to_string()
        })
    );
}

#[test]
fn delete_project() {
    let (mut disk, project_service) = test_project_service();

    let project_info = project(&mut disk, &project_service, "project1").unwrap();

    delete(&mut disk, &project_service, &project_info).unwrap();

    let projects = all_projects(&mut disk, &project_service);
    assert_eq!(projects, Ok(vec![info("project2"), info("project3")]))
}

#[test]
fn files_are_listed_in_order_without_directories() {
    let (mut disk, project_service) = test_project_service();

    let names = files(&mut disk, &project_service, &info("project1"));

    assert_eq!(names, Ok(vec![".env".to_string(), "compose.yml".to_string()]));
    assert_eq!(files(&mut disk, &project_service, &info("project2")), Ok(vec![]));
}

#[test]
fn projects_are_the_directories_only() {
    let (mut disk, project_service) = test_project_service();
    disk.nodes.insert("/projects/notes.txt".to_string(), Node::File("x".to_string()));
    disk.nodes.insert("/projects/Zeta".to_string(), Node::Dir);

    let projects = all_projects(&mut disk, &project_service);

    // capital letters come before small ones
    assert_eq!(
        projects,
        Ok(vec![info("Zeta"), info("project1"), info("project2"), info("project3")])
    );
    assert_eq!(
        project(&mut disk, &project_service, "notes.txt"),
        Err(ProjectServiceError::ProjectNotFound("notes.txt".to_string()))
    );
}

#[test]
fn delete_file_hands_back_the_content() {
    let (mut disk, project_service) = test_project_service();

    let content = delete_file(&mut disk, &project_service, &info("project1"), ".env");

    assert_eq!(content, Ok(".env".to_string()));
    assert_eq!(files(&mut disk, &project_service, &info("project1")), Ok(vec!["compose.yml".to_string()]));
}

#[test]
fn write_then_read_round_trip() {
    let (mut disk, project_service) = test_project_service();
    let project_info = info("project2");

    for (name, content) in [("a", ""), (".hidden", "x\ny"), ("with space", "ü"), ("a.b.c", "1")] {
        let written = update_file(&mut disk, &project_service, &project_info, name, content);
        assert_eq!(written, Ok(content.to_string()));
        assert_eq!(
            read_file(&mut disk, &project_service, &project_info, name),
            Ok(content.to_string())
        );
    }
    // a directory in the way
    assert_eq!(
        update_file(&mut disk, &project_service, &info("project1"), "sub", "c"),
        Err(ProjectServiceError::FailedToWriteFile("\"/projects/project1/sub\"".to_string()))
    );
}

#[test]
fn names_that_leave_the_directory_never_reach_the_disk() {
    let (mut disk, project_service) = test_project_service();
    let project_info = info("project1");

    for name in ["", ".", "/", "a/b", "a\\b", "..", "../x", "a..b", "/etc/passwd", "x/"] {
        let invalid = Err(ProjectServiceError::InvalidFilePath(name.to_string()));
        assert_eq!(ProjectService::save_file_path(name), invalid);
        assert_eq!(read_file(&mut disk, &project_service, &project_info, name), invalid);
        assert_eq!(update_file(&mut disk, &project_service, &project_info, name, "c"), invalid);
        assert_eq!(delete_file(&mut disk, &project_service, &project_info, name), invalid);
        assert_eq!(
            create(&mut disk, &project_service, name),
            Err(ProjectServiceError::InvalidFilePath(name.to_string()))
        );
    }
    assert_eq!(disk.requests, 0);
    assert_eq!(ProjectService::save_file_path("compose.yml"), Ok("compose.yml".to_string()));
    assert_eq!(ProjectService::save_file_path(".env"), Ok(".env".to_string()));
}

#[test]
fn failures_of_the_disk_are_reported_with_the_path() {
    let service = ProjectService::new("/gone".to_string());
    let mut disk = Disk { nodes: BTreeMap::new(), requests: 0 };
    let lost = ProjectInfo { name: "p".to_string(), dir: "/gone/p".to_string() };

    assert_eq!(
        all_projects(&mut disk, &service),
        Err(ProjectServiceError::FailedToReadDir("\"/gone\"".to_string()))
    );
    assert_eq!(
        files(&mut disk, &service, &lost),
        Err(ProjectServiceError::FailedToReadDir("\"/gone/p\"".to_string()))
    );
    assert_eq!(
        update_file(&mut disk, &service, &lost, "f", "c"),
        Err(ProjectServiceError::FailedToWriteFile("\"/gone/p/f\"".to_string()))
    );
    assert_eq!(
        delete(&mut disk, &service, &lost),
        Err(ProjectServiceError::FailedToDeleteProject("p".to_string()))
    );
    assert_eq!(
        ProjectService::resume(
            match service.begin(Operation::ReadFile { project: lost.clone(), file: "f".to_string() }) {
                Step::Ask { pending, .. } => pending,
                Step::Done(_) => panic!("nothing asked"),
            },
            FsReply::Failed,
        ),
        Step::Done(Err(ProjectServiceError::FailedToReadFile("\"/gone/p/f\"".to_string())))
    );
}

#[test]
fn removal_that_fails_after_the_read_is_reported() {
    let (_disk, service) = test_project_service();
    let op = Operation::DeleteFile { project: info("project1"), file: ".env".to_string() };

    let pending = match service.begin(op) {
        Step::Ask { request, pending } => {
            assert_eq!(request, FsRequest::Probe { path: "/projects/project1/.env".to_string() });
            pending
        }
        Step::Done(_) => panic!("nothing asked"),
    };
    let pending = match ProjectService::resume(pending, FsReply::Probed(Some(NodeKind::File))) {
        Step::Ask { request, pending } => {
            assert_eq!(request, FsRequest::ReadFile { path: "/projects/project1/.env".to_string() });
            pending
        }
        Step::Done(_) => panic!("nothing asked"),
    };
    let pending = match ProjectService::resume(pending, FsReply::Content(".env".to_string())) {
        Step::Ask { request, pending } => {
            assert_eq!(request, FsRequest::RemoveFile { path: "/projects/project1/.env".to_string() });
            pending
        }
        Step::Done(_) => panic!("nothing asked"),
    };
    assert_eq!(
        ProjectService::resume(pending, FsReply::Failed),
        Step::Done(Err(ProjectServiceError::FailedToDeleteFile(
            "\"/projects/project1/.env\"".to_string()
        )))
    );
}

#[test]
fn creation_goes_on_when_the_probe_fails() {
    let service = ProjectService::new("base/".to_string());

    let pending = match service.begin(Operation::Create { name: "new".to_string() }) {
        Step::Ask { request, pending } => {
            assert_eq!(request, FsRequest::Probe { path: "base/new".to_string() });
            pending
        }
        Step::Done(_) => panic!("nothing asked"),
    };
    let pending = match ProjectService::resume(pending, FsReply::Failed) {
        Step::Ask { request, pending } => {
            assert_eq!(request, FsRequest::CreateDir { path: "base/new".to_string() });
            pending
        }
        Step::Done(_) => panic!("nothing asked"),
    };
    let pending = match ProjectService::resume(pending, FsReply::Failed) {
        Step::Ask { request, pending } => {
            assert_eq!(
                request,
                FsRequest::WriteFile {
                    path: "base/new/compose.yml".to_string(),
                    content: String::new()
                }
            );
            pending
        }
        Step::Done(_) => panic!("nothing asked"),
    };
    assert_eq!(
        ProjectService::resume(pending, FsReply::Failed),
        Step::Done(Err(ProjectServiceError::FailedToWriteFile(
            "\"base/new/compose.yml\"".to_string()
        )))
    );
}

#[test]
fn paths_are_joined_with_one_separator() {
    assert_eq!(backend::path::join("", "a"), "a");
    assert_eq!(backend::path::join("/", "a"), "/a");
    assert_eq!(backend::path::join("dir", "a"), "dir/a");
    assert_eq!(backend::path::join("dir/", "a"), "dir/a");
    assert_eq!(ProjectService::default().base_path(), "");
}

#[test]
fn project_errors_have_their_texts_and_statuses() {
    let cases = [
        (ProjectServiceError::ProjectNotFound("p".to_string()), "Could not find Project p", 404),
        (
            ProjectServiceError::ProjectAlreadyExists("p".to_string()),
            "A Project with the name p does already Exist",
            400,
        ),
        (
            ProjectServiceError::FailedToDeleteProject("p".to_string()),
            "Failed to delete Project p",
            500,
        ),
        (
            ProjectServiceError::FileNotFound { project: "p".to_string(), file: "f".to_string() },
            "Could not find file f for p",
            404,
        ),
        (
            ProjectServiceError::FailedToReadDir("d".to_string()),
            "Failed to read directory at d",
            500,
        ),
        (ProjectServiceError::FailedToReadFile("f".to_string()), "Failed to read file at f", 500),
        (ProjectServiceError::FailedToWriteFile("f".to_string()), "Failed to write file at f", 500),
        (
            ProjectServiceError::FailedToDeleteFile("f".to_string()),
            "Failed to delete file at f",
            500,
        ),
        (
            ProjectServiceError::InvalidFilePath("../f".to_string()),
            "Cannot access files outside of project dir - tried to access ../f",
            400,
        ),
    ];
    for (error, text, status) in cases {
        assert_eq!(error.message(), text);
        assert_eq!(error.status_code(), status);
    }
}

#[test]
fn base_path_with_two_projects() {
    let mut nodes = BTreeMap::new();
    nodes.insert("/srv".to_string(), Node::Dir);
    nodes.insert("/srv/project1".to_string(), Node::Dir);
    nodes.insert("/srv/project2".to_string(), Node::Dir);
    nodes.insert("/srv/project1/compose.yml".to_string(), Node::File("compose.yml".to_string()));
    nodes.insert("/srv/project1/.env".to_string(), Node::File(".env".to_string()));
    let mut disk = Disk { nodes, requests: 0 };
    let service = ProjectService::new("/srv".to_string());
    let project1 = ProjectInfo { name: "project1".to_string(), dir: "/srv/project1".to_string() };
    let project2 = ProjectInfo { name: "project2".to_string(), dir: "/srv/project2".to_string() };

    assert_eq!(all_projects(&mut disk, &service), Ok(vec![project1.clone(), project2.clone()]));
    assert_eq!(
        read_file(&mut disk, &service, &project1, "compose.yml"),
        Ok("compose.yml".to_string())
    );
    assert_eq!(files(&mut disk, &service, &project2), Ok(vec![]));
    assert_eq!(
        create(&mut disk, &service, "project1"),
        Err(ProjectServiceError::ProjectAlreadyExists("project1".to_string()))
    );
    assert_eq!(
        read_file(&mut disk, &service, &project1, "../project2/compose.yml"),
        Err(ProjectServiceError::InvalidFilePath("../project2/compose.yml".to_string()))
    );
}

#[test]
fn lookup_refuses_only_names_that_name_no_child() {
    let (mut disk, project_service) = test_project_service();

    for name in ["", ".", "..", "/", "a/b", "a\\b", "../x", "/etc/passwd", "x/"] {
        assert_eq!(
            project(&mut disk, &project_service, name),
            Err(ProjectServiceError::ProjectNotFound(name.to_string()))
        );
    }
    assert_eq!(disk.requests, 0);

    assert_eq!(
        project(&mut disk, &project_service, "a..b"),
        Err(ProjectServiceError::ProjectNotFound("a..b".to_string()))
    );
    assert_eq!(disk.requests, 1);
}

#[test]
fn directory_with_two_dots_inside_is_a_project() {
    let (mut disk, project_service) = test_project_service();
    disk.nodes.insert("/projects/a..b".to_string(), Node::Dir);
    disk.nodes.insert("/projects/a..b/compose.yml".to_string(), Node::File("x".to_string()));

    assert_eq!(
        all_projects(&mut disk, &project_service),
        Ok(vec![info("a..b"), info("project1"), info("project2"), info("project3")])
    );
    assert_eq!(project(&mut disk, &project_service, "a..b"), Ok(info("a..b")));
    assert_eq!(
        read_file(&mut disk, &project_service, &info("a..b"), "compose.yml"),
        Ok("x".to_string())
    );
    assert_eq!(delete(&mut disk, &project_service, &info("a..b")), Ok(()));
    assert_eq!(
        create(&mut disk, &project_service, "a..b"),
        Err(ProjectServiceError::InvalidFilePath("a..b".to_string()))
    );
}
