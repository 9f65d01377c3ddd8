//! The project service over a file system that behaves as a tree of
//! directories and files should: what its operations return there, and
//! what they leave behind.

use vstd::prelude::*;
use crate::path::{child_of, names_child, single_component};
use crate::services::project::fs::{DirEntryView, FsReplyView, FsRequestView, NodeKind};
use crate::services::project::laws::{
    lemma_children_differ,
    lemma_projects_are_reported_once,
    lemma_projects_are_the_directories,
    lies_below,
    names_differ,
    names_of,
};
use crate::services::project::service::{
    first_step,
    listed_projects,
    manifest_name,
    next_step,
    OperationView,
    OutcomeView,
    StepView,
};
use crate::services::project::{ProjectErrorView, ProjectInfoView};

verus! {

/// What lies at a path of the model file system.
pub enum Node {
    Dir,
    File(Seq<char>),
}

/// A file system as the laws below picture it: what lies at each path
/// that leads anywhere.
pub type Tree = Map<Seq<char>, Node>;

/// What lies at `path`, if anything.
pub open spec fn kind_at(tree: Tree, path: Seq<char>) -> Option<NodeKind> {
    if tree.dom().contains(path) {
        match tree[path] {
            Node::Dir => Some(NodeKind::Dir),
            Node::File(_) => Some(NodeKind::File),
        }
    } else {
        None
    }
}

/// Whether `entries` lists the directory `dir`: one entry for each name
/// that can name a child and has something at its path under `dir`, with
/// the kind of what lies there.
pub open spec fn lists(tree: Tree, dir: Seq<char>, entries: Seq<DirEntryView>) -> bool {
    &&& forall|k: int|
        0 <= k < entries.len() ==> kind_at(tree, child_of(dir, (#[trigger] entries[k]).name))
            == Some(entries[k].kind)
    &&& names_differ(entries)
    &&& forall|name: Seq<char>|
        names_child(name) && #[trigger] tree.dom().contains(child_of(dir, name)) ==> exists|
            k: int,
        | 0 <= k < entries.len() && (#[trigger] entries[k]).name == name
}

/// How the model answers a request, and what it holds afterwards. A
/// request fails only where what lies at its path rules it out; the
/// model is unchanged then.
pub open spec fn answer(tree: Tree, request: FsRequestView) -> (Tree, FsReplyView) {
    match request {
        FsRequestView::Probe { path } => (tree, FsReplyView::Probed(kind_at(tree, path))),
        FsRequestView::ListDir { path } => if kind_at(tree, path) == Some(NodeKind::Dir) {
            (tree, FsReplyView::Listing(choose|entries: Seq<DirEntryView>| lists(tree, path, entries)))
        } else {
            (tree, FsReplyView::Failed)
        },
        FsRequestView::ReadFile { path } => if tree.dom().contains(path) {
            match tree[path] {
                Node::File(content) => (tree, FsReplyView::Content(content)),
                Node::Dir => (tree, FsReplyView::Failed),
            }
        } else {
            (tree, FsReplyView::Failed)
        },
        FsRequestView::WriteFile { path, content } => if kind_at(tree, path) == Some(
            NodeKind::Dir,
        ) {
            (tree, FsReplyView::Failed)
        } else {
            (tree.insert(path, Node::File(content)), FsReplyView::Done)
        },
        FsRequestView::RemoveFile { path } => if kind_at(tree, path) == Some(NodeKind::File) {
            (tree.remove(path), FsReplyView::Done)
        } else {
            (tree, FsReplyView::Failed)
        },
        FsRequestView::CreateDir { path } => if tree.dom().contains(path) {
            (tree, FsReplyView::Failed)
        } else {
            (tree.insert(path, Node::Dir), FsReplyView::Done)
        },
        FsRequestView::RemoveDirAll { path } => if kind_at(tree, path) == Some(NodeKind::Dir) {
            (
                tree.remove_keys(Set::new(|p: Seq<char>| p == path || lies_below(p, path))),
                FsReplyView::Done,
            )
        } else {
            (tree, FsReplyView::Failed)
        },
    }
}

/// How many requests `step` can still lead to.
pub open spec fn steps_left(step: StepView) -> nat {
    match step {
        StepView::Ask { pending, .. } => pending.requests_left() + 1,
        StepView::Done(_) => 0,
    }
}

/// The result of carrying an operation on from `step` over the model,
/// and what the model holds when the operation is over.
pub open spec fn run_from(step: StepView, tree: Tree) -> (
    Tree,
    Result<OutcomeView, ProjectErrorView>,
)
    decreases steps_left(step),
{
    match step {
        StepView::Done(result) => (tree, result),
        StepView::Ask { request, pending } => {
            let (then, reply) = answer(tree, request);
            run_from(next_step(pending, reply), then)
        },
    }
}

/// The result of an operation over the model, and what the model holds
/// when the operation is over.
pub open spec fn run(base: Seq<char>, op: OperationView, tree: Tree) -> (
    Tree,
    Result<OutcomeView, ProjectErrorView>,
) {
    run_from(first_step(base, op), tree)
}

/// Writing a file and reading it back yields what was written: over the
/// model, a write under a valid name that succeeds hands the content
/// back, leaves the file holding exactly that content, and a read of the
/// same name then returns it and changes nothing.
pub proof fn lemma_write_then_read(
    base: Seq<char>,
    tree: Tree,
    project: ProjectInfoView,
    file: Seq<char>,
    content: Seq<char>,
)
    requires
        single_component(file),
        run(base, OperationView::UpdateFile { project, file, content }, tree).1 is Ok,
    ensures
        ({
            let (written, result) = run(
                base,
                OperationView::UpdateFile { project, file, content },
                tree,
            );
            &&& result == Ok::<OutcomeView, ProjectErrorView>(OutcomeView::Content(content))
            &&& written == tree.insert(child_of(project.dir, file), Node::File(content))
            &&& run(base, OperationView::ReadFile { project, file }, written) == (
                written,
                Ok::<OutcomeView, ProjectErrorView>(OutcomeView::Content(content)),
            )
        }),
{
    reveal_with_fuel(run_from, 5);
}

/// A write under a valid name succeeds over the model unless a directory
/// lies at the file's path.
pub proof fn lemma_write_succeeds(
    base: Seq<char>,
    tree: Tree,
    project: ProjectInfoView,
    file: Seq<char>,
    content: Seq<char>,
)
    requires
        single_component(file),
    ensures
        run(base, OperationView::UpdateFile { project, file, content }, tree).1 is Ok <==> kind_at(
            tree,
            child_of(project.dir, file),
        ) != Some(NodeKind::Dir),
{
    reveal_with_fuel(run_from, 5);
}

/// Removing a file that was never created fails: over the model, where
/// nothing lies at the path of a valid name, the removal reports that
/// the file was not found and changes nothing.
pub proof fn lemma_delete_missing_file(
    base: Seq<char>,
    tree: Tree,
    project: ProjectInfoView,
    file: Seq<char>,
)
    requires
        single_component(file),
        !tree.dom().contains(child_of(project.dir, file)),
    ensures
        run(base, OperationView::DeleteFile { project, file }, tree) == (
            tree,
            Err::<OutcomeView, ProjectErrorView>(
                ProjectErrorView::FileNotFound { project: project.name, file },
            ),
        ),
        run(base, OperationView::ReadFile { project, file }, tree) == (
            tree,
            Err::<OutcomeView, ProjectErrorView>(
                ProjectErrorView::FileNotFound { project: project.name, file },
            ),
        ),
{
    reveal_with_fuel(run_from, 5);
}

/// Removing a file that exists succeeds, and the file is gone
/// afterwards: over the model, the removal hands the file's content
/// back, leaves nothing at its path, and a read of the same name then
/// reports that the file was not found.
pub proof fn lemma_delete_then_read(
    base: Seq<char>,
    tree: Tree,
    project: ProjectInfoView,
    file: Seq<char>,
    content: Seq<char>,
)
    requires
        single_component(file),
        tree.dom().contains(child_of(project.dir, file)),
        tree[child_of(project.dir, file)] == Node::File(content),
    ensures
        ({
            let (removed, result) = run(base, OperationView::DeleteFile { project, file }, tree);
            &&& result == Ok::<OutcomeView, ProjectErrorView>(OutcomeView::Content(content))
            &&& removed == tree.remove(child_of(project.dir, file))
            &&& run(base, OperationView::ReadFile { project, file }, removed) == (
                removed,
                Err::<OutcomeView, ProjectErrorView>(
                    ProjectErrorView::FileNotFound { project: project.name, file },
                ),
            )
        }),
{
    reveal_with_fuel(run_from, 5);
}

/// Creating a project that exists fails: over the model, where anything
/// lies at the path of a valid name under the base path, the creation
/// reports that the project exists already and changes nothing.
pub proof fn lemma_create_existing(base: Seq<char>, tree: Tree, name: Seq<char>)
    requires
        single_component(name),
        tree.dom().contains(child_of(base, name)),
    ensures
        run(base, OperationView::Create { name }, tree) == (
            tree,
            Err::<OutcomeView, ProjectErrorView>(ProjectErrorView::ProjectAlreadyExists(name)),
        ),
{
    reveal_with_fuel(run_from, 5);
}

/// Creating a project that does not exist yet makes it: over the model,
/// where nothing lies at the path of a valid name under the base path
/// nor at the path of its manifest, the creation hands back the project
/// under the base path, its directory exists afterwards and holds an
/// empty manifest, and a lookup of the name then finds the project.
pub proof fn lemma_create_then_lookup(base: Seq<char>, tree: Tree, name: Seq<char>)
    requires
        single_component(name),
        !tree.dom().contains(child_of(base, name)),
        !tree.dom().contains(
            child_of(child_of(base, name), manifest_name()),
        ),
    ensures
        ({
            let project = ProjectInfoView::under(base, name);
            let manifest = child_of(
                project.dir,
                manifest_name(),
            );
            let (created, result) = run(base, OperationView::Create { name }, tree);
            &&& result == Ok::<OutcomeView, ProjectErrorView>(OutcomeView::Project(project))
            &&& created == tree.insert(project.dir, Node::Dir).insert(
                manifest,
                Node::File(Seq::empty()),
            )
            &&& run(base, OperationView::Project { name }, created) == (
                created,
                Ok::<OutcomeView, ProjectErrorView>(OutcomeView::Project(project)),
            )
        }),
{
    reveal_with_fuel(run_from, 5);
    let project = ProjectInfoView::under(base, name);
    let dir = project.dir;
    let manifest = child_of(dir, manifest_name());
    reveal_strlit("compose.yml");
    assert(manifest.len() > dir.len());
}

/// A lookup finds the directories under the base path and nothing else:
/// over the model, the lookup of a name succeeds exactly if the name can
/// name a child of the base path and a directory lies at its path; it
/// then hands back the project of that name under the base path. It
/// reports every other name as not found, and it changes nothing.
pub proof fn lemma_lookup_finds_directories(base: Seq<char>, tree: Tree, name: Seq<char>)
    ensures
        run(base, OperationView::Project { name }, tree) == (
            tree,
            if names_child(name) && kind_at(tree, child_of(base, name)) == Some(NodeKind::Dir) {
                Ok::<OutcomeView, ProjectErrorView>(
                    OutcomeView::Project(ProjectInfoView::under(base, name)),
                )
            } else {
                Err::<OutcomeView, ProjectErrorView>(ProjectErrorView::ProjectNotFound(name))
            },
        ),
{
    reveal_with_fuel(run_from, 3);
}

/// The projects are the directories directly under the base path: over
/// the model, where the base path is a directory that can be listed, the
/// listing of projects changes nothing, every project it reports is a
/// directory of that name under the base path, every directory that
/// lies at the path of a name that can name a child of the base path is
/// reported, and none is reported twice.
pub proof fn lemma_projects_over_model(base: Seq<char>, tree: Tree)
    requires
        kind_at(tree, base) == Some(NodeKind::Dir),
        exists|entries: Seq<DirEntryView>| lists(tree, base, entries),
    ensures
        run(base, OperationView::AllProjects, tree).0 == tree,
        run(base, OperationView::AllProjects, tree).1 matches Ok(OutcomeView::Projects(projects))
            && (forall|name: Seq<char>| #[trigger]
            names_of(projects).contains(name) ==> kind_at(tree, child_of(base, name)) == Some(
                NodeKind::Dir,
            )) && (forall|name: Seq<char>|
            names_child(name) && kind_at(tree, #[trigger] child_of(base, name)) == Some(
                NodeKind::Dir,
            ) ==> names_of(projects).contains(name)) && (forall|i: int, j: int|
            0 <= i < j < projects.len() ==> (#[trigger] projects[i]).name != (
            #[trigger] projects[j]).name),
{
    reveal_with_fuel(run_from, 3);
    let entries = choose|entries: Seq<DirEntryView>| lists(tree, base, entries);
    let projects = listed_projects(base, entries);
    lemma_projects_are_the_directories(base, entries);
    lemma_projects_are_reported_once(base, entries);
    assert(run(base, OperationView::AllProjects, tree).1 == Ok::<OutcomeView, ProjectErrorView>(
        OutcomeView::Projects(projects),
    ));
    assert forall|name: Seq<char>| #[trigger] names_of(projects).contains(name) implies kind_at(
        tree,
        child_of(base, name),
    ) == Some(NodeKind::Dir) by {
        let k = choose|k: int|
            0 <= k < entries.len() && (#[trigger] entries[k]).kind == NodeKind::Dir
                && entries[k].name == name;
        assert(kind_at(tree, child_of(base, entries[k].name)) == Some(entries[k].kind));
    }
    assert forall|name: Seq<char>|
        names_child(name) && kind_at(tree, #[trigger] child_of(base, name)) == Some(
            NodeKind::Dir,
        ) implies names_of(projects).contains(name) by {
        assert(tree.dom().contains(child_of(base, name)));
        let k = choose|k: int| 0 <= k < entries.len() && (#[trigger] entries[k]).name == name;
        assert(kind_at(tree, child_of(base, entries[k].name)) == Some(entries[k].kind));
    }
}

/// A write changes one file only: over the model, after a write of one
/// file of a project, a read of a file of another name in the same
/// project yields what it yielded before.
pub proof fn lemma_write_leaves_others(
    base: Seq<char>,
    tree: Tree,
    project: ProjectInfoView,
    file: Seq<char>,
    content: Seq<char>,
    other: Seq<char>,
)
    requires
        other != file,
    ensures
        ({
            let written = run(base, OperationView::UpdateFile { project, file, content }, tree).0;
            run(base, OperationView::ReadFile { project, file: other }, written).1 == run(
                base,
                OperationView::ReadFile { project, file: other },
                tree,
            ).1
        }),
{
    reveal_with_fuel(run_from, 5);
    lemma_children_differ(project.dir, file, other);
}

} // verus!
