//! What holds of the project service whatever it is asked and whatever
//! the file system answers.

use vstd::prelude::*;
use crate::path::{
    child_of,
    has_parent_marker,
    has_separator,
    is_parent_marker,
    names_child,
    single_component,
};
use crate::services::project::fs::{
    lemma_sorted_texts,
    names_of_kind,
    sorted_texts,
    DirEntryView,
    FsReplyView,
    FsRequestView,
    NodeKind,
};
use crate::services::project::service::{
    first_step,
    listed_files,
    listed_projects,
    next_step,
    OperationView,
    OutcomeView,
    PendingView,
    StepView,
};
use crate::services::project::{ProjectErrorView, ProjectInfoView};
use crate::text::text_le;

verus! {

/// The names of the projects, in order.
pub open spec fn names_of(projects: Seq<ProjectInfoView>) -> Seq<Seq<char>> {
    projects.map_values(|p: ProjectInfoView| p.name)
}

/// A name is among the names of a kind exactly if the listing holds an
/// entry of that kind with that name.
pub proof fn lemma_names_of_kind(entries: Seq<DirEntryView>, kind: NodeKind, name: Seq<char>)
    ensures
        names_of_kind(entries, kind).contains(name) <==> exists|k: int|
            0 <= k < entries.len() && (#[trigger] entries[k]).kind == kind && entries[k].name
                == name,
    decreases entries.len(),
{
    if entries.len() > 0 {
        let before = entries.drop_last();
        let last = entries.last();
        lemma_names_of_kind(before, kind, name);
        let names = names_of_kind(entries, kind);
        if names.contains(name) {
            let i = choose|i: int| 0 <= i < names.len() && names[i] == name;
            if last.kind == kind && i == names.len() - 1 {
                assert(entries[entries.len() - 1].kind == kind && entries[entries.len() - 1].name
                    == name);
            } else {
                assert(names_of_kind(before, kind)[i] == name);
                assert(names_of_kind(before, kind).contains(name));
                let k = choose|k: int|
                    0 <= k < before.len() && (#[trigger] before[k]).kind == kind && before[k].name
                        == name;
                assert(entries[k].kind == kind && entries[k].name == name);
            }
        }
        if exists|k: int|
            0 <= k < entries.len() && (#[trigger] entries[k]).kind == kind && entries[k].name
                == name {
            let k = choose|k: int|
                0 <= k < entries.len() && (#[trigger] entries[k]).kind == kind && entries[k].name
                    == name;
            if k == entries.len() - 1 {
                assert(names[names.len() - 1] == name);
            } else {
                assert(before[k].kind == kind && before[k].name == name);
                let i = choose|i: int|
                    0 <= i < names_of_kind(before, kind).len() && names_of_kind(before, kind)[i]
                        == name;
                assert(names[i] == name);
            }
        }
    }
}

/// The operations on a file and the creation of a project refuse a name
/// that holds a path separator or two dots in a row as an invalid path,
/// before anything is asked of the file system. The lookup of a project
/// answers a name that holds a separator, or that is `..`, as not found,
/// without asking either.
pub proof fn lemma_traversal_is_refused(
    base: Seq<char>,
    project: ProjectInfoView,
    name: Seq<char>,
    content: Seq<char>,
)
    requires
        name.contains('/') || name.contains('\\') || has_parent_marker(name),
    ensures
        !single_component(name),
        first_step(base, OperationView::ReadFile { project, file: name }) == StepView::Done(
            Err(ProjectErrorView::InvalidFilePath(name)),
        ),
        first_step(base, OperationView::UpdateFile { project, file: name, content })
            == StepView::Done(Err(ProjectErrorView::InvalidFilePath(name))),
        first_step(base, OperationView::DeleteFile { project, file: name }) == StepView::Done(
            Err(ProjectErrorView::InvalidFilePath(name)),
        ),
        first_step(base, OperationView::Create { name }) == StepView::Done(
            Err(ProjectErrorView::InvalidFilePath(name)),
        ),
        name.contains('/') || name.contains('\\') || is_parent_marker(name) ==> first_step(
            base,
            OperationView::Project { name },
        ) == StepView::Done(Err(ProjectErrorView::ProjectNotFound(name))),
{
    if name.contains('/') {
        let i = choose|i: int| 0 <= i < name.len() && name[i] == '/';
        assert(crate::path::is_separator(name[i]));
        assert(has_separator(name));
    } else if name.contains('\\') {
        let i = choose|i: int| 0 <= i < name.len() && name[i] == '\\';
        assert(crate::path::is_separator(name[i]));
        assert(has_separator(name));
    }
}

/// A lookup is decided by what lies at the name's path: for every name
/// that can name a child of the base path, two dots inside or not, the
/// lookup probes the child of the base path that bears the name. It
/// finds the project of that name there exactly if the probe shows a
/// directory, and reports the project as not found if the probe shows
/// anything else or nothing.
pub proof fn lemma_lookup_probes(base: Seq<char>, name: Seq<char>, found: Option<NodeKind>)
    requires
        names_child(name),
    ensures
        first_step(base, OperationView::Project { name }) == (StepView::Ask {
            request: FsRequestView::Probe { path: child_of(base, name) },
            pending: PendingView::Lookup { name, dir: child_of(base, name) },
        }),
        next_step(
            PendingView::Lookup { name, dir: child_of(base, name) },
            FsReplyView::Probed(found),
        ) == if found == Some(NodeKind::Dir) {
            StepView::Done(Ok(OutcomeView::Project(ProjectInfoView::under(base, name))))
        } else {
            StepView::Done(Err(ProjectErrorView::ProjectNotFound(name)))
        },
{
}

/// The listing of projects is exact and ordered: whatever the base
/// directory is found to hold, the projects reported are its directories,
/// each as often as it was listed and nothing else, in ascending order of
/// their names, each with its directory directly under the base path.
pub proof fn lemma_projects_are_the_directories(base: Seq<char>, entries: Seq<DirEntryView>)
    ensures
        first_step(base, OperationView::AllProjects) == (StepView::Ask {
            request: FsRequestView::ListDir { path: base },
            pending: PendingView::Projects { base },
        }),
        next_step(PendingView::Projects { base }, FsReplyView::Listing(entries)) == StepView::Done(
            Ok(OutcomeView::Projects(listed_projects(base, entries))),
        ),
        names_of(listed_projects(base, entries)).to_multiset() == names_of_kind(
            entries,
            NodeKind::Dir,
        ).to_multiset(),
        forall|name: Seq<char>|
            names_of(listed_projects(base, entries)).contains(name) <==> exists|k: int|
                0 <= k < entries.len() && (#[trigger] entries[k]).kind == NodeKind::Dir
                    && entries[k].name == name,
        forall|i: int, j: int|
            0 <= i < j < listed_projects(base, entries).len() ==> text_le(
                (#[trigger] listed_projects(base, entries)[i]).name,
                (#[trigger] listed_projects(base, entries)[j]).name,
            ),
        forall|i: int|
            0 <= i < listed_projects(base, entries).len() ==> (#[trigger] listed_projects(
                base,
                entries,
            )[i]).lies_under(base),
{
    let dirs = names_of_kind(entries, NodeKind::Dir);
    let sorted = sorted_texts(dirs);
    let projects = listed_projects(base, entries);
    lemma_sorted_texts(dirs);
    assert(names_of(projects) =~= sorted);
    assert forall|name: Seq<char>| names_of(projects).contains(name) <==> exists|k: int|
        0 <= k < entries.len() && (#[trigger] entries[k]).kind == NodeKind::Dir && entries[k].name
            == name by {
        lemma_names_of_kind(entries, NodeKind::Dir, name);
        sorted.to_multiset_ensures();
        dirs.to_multiset_ensures();
        assert(sorted.contains(name) <==> sorted.to_multiset().count(name) > 0);
        assert(dirs.contains(name) <==> dirs.to_multiset().count(name) > 0);
    }
    assert forall|i: int, j: int| 0 <= i < j < projects.len() implies text_le(
        (#[trigger] projects[i]).name,
        (#[trigger] projects[j]).name,
    ) by {
        assert(projects[i].name == sorted[i]);
        assert(projects[j].name == sorted[j]);
    }
}

/// Whether no two entries of a listing bear the same name.
pub open spec fn names_differ(entries: Seq<DirEntryView>) -> bool {
    forall|i: int, j: int|
        0 <= i < j < entries.len() ==> (#[trigger] entries[i]).name != (#[trigger] entries[j]).name
}

/// A listing whose entries bear different names shows no name of a kind
/// twice.
pub proof fn lemma_names_of_kind_differ(entries: Seq<DirEntryView>, kind: NodeKind)
    requires
        names_differ(entries),
    ensures
        names_of_kind(entries, kind).no_duplicates(),
    decreases entries.len(),
{
    if entries.len() > 0 {
        let before = entries.drop_last();
        let last = entries.last();
        assert(names_differ(before)) by {
            assert forall|i: int, j: int| 0 <= i < j < before.len() implies (#[trigger] before[i]).name
                != (#[trigger] before[j]).name by {
                assert(before[i] == entries[i]);
                assert(before[j] == entries[j]);
            }
        }
        lemma_names_of_kind_differ(before, kind);
        if last.kind == kind {
            lemma_names_of_kind(before, kind, last.name);
            if names_of_kind(before, kind).contains(last.name) {
                let k = choose|k: int|
                    0 <= k < before.len() && (#[trigger] before[k]).kind == kind && before[k].name
                        == last.name;
                assert(entries[k].name != entries[entries.len() - 1].name);
                assert(before[k] == entries[k]);
                assert(false);
            }
        }
    }
}

/// Each directory is reported once: where no two entries of the listing
/// of the base path bear the same name, no two of the projects reported
/// do.
pub proof fn lemma_projects_are_reported_once(base: Seq<char>, entries: Seq<DirEntryView>)
    requires
        names_differ(entries),
    ensures
        forall|i: int, j: int|
            0 <= i < j < listed_projects(base, entries).len() ==> (#[trigger] listed_projects(
                base,
                entries,
            )[i]).name != (#[trigger] listed_projects(base, entries)[j]).name,
{
    let dirs = names_of_kind(entries, NodeKind::Dir);
    let sorted = sorted_texts(dirs);
    let projects = listed_projects(base, entries);
    lemma_names_of_kind_differ(entries, NodeKind::Dir);
    lemma_sorted_texts(dirs);
    dirs.lemma_multiset_has_no_duplicates();
    sorted.lemma_multiset_has_no_duplicates_conv();
    assert forall|i: int, j: int| 0 <= i < j < projects.len() implies (#[trigger] projects[i]).name
        != (#[trigger] projects[j]).name by {
        assert(projects[i].name == sorted[i]);
        assert(projects[j].name == sorted[j]);
    }
}

/// The listing of a project's files is exact and ordered: the names of
/// the regular files that its directory is found to hold, and nothing
/// else, in ascending order.
pub proof fn lemma_files_are_the_regular_files(project: ProjectInfoView, entries: Seq<DirEntryView>)
    ensures
        next_step(PendingView::Files { dir: project.dir }, FsReplyView::Listing(entries))
            == StepView::Done(Ok(OutcomeView::Files(listed_files(entries)))),
        listed_files(entries).to_multiset() == names_of_kind(entries, NodeKind::File).to_multiset(),
        forall|i: int, j: int|
            0 <= i < j < listed_files(entries).len() ==> text_le(
                #[trigger] listed_files(entries)[i],
                #[trigger] listed_files(entries)[j],
            ),
{
    lemma_sorted_texts(names_of_kind(entries, NodeKind::File));
}

/// An operation asks at most three things of the file system: each step
/// leaves fewer requests to come than the one before.
pub proof fn lemma_requests_run_out(pending: PendingView, reply: FsReplyView)
    ensures
        pending.requests_left() <= 2,
        match next_step(pending, reply) {
            StepView::Ask { pending: then, .. } => then.requests_left() < pending.requests_left(),
            StepView::Done(_) => true,
        },
{
}

/// The result of carrying an operation on from `step` when the file
/// system answers its requests with `replies`, in turn; `None` if the
/// replies run out before the operation is over.
pub open spec fn finish(step: StepView, replies: Seq<FsReplyView>) -> Option<
    Result<OutcomeView, ProjectErrorView>,
>
    decreases replies.len(),
{
    match step {
        StepView::Done(result) => Some(result),
        StepView::Ask { pending, .. } => if replies.len() == 0 {
            None
        } else {
            finish(next_step(pending, replies[0]), replies.drop_first())
        },
    }
}

/// What an operation hands back when it succeeds, as far as the
/// operation alone decides it.
pub open spec fn outcome_fits(base: Seq<char>, op: OperationView, outcome: OutcomeView) -> bool {
    match op {
        OperationView::AllProjects => outcome is Projects,
        OperationView::Project { name } => outcome == OutcomeView::Project(
            ProjectInfoView::under(base, name),
        ),
        OperationView::Create { name } => outcome == OutcomeView::Project(
            ProjectInfoView::under(base, name),
        ),
        OperationView::Delete { .. } => outcome is Deleted,
        OperationView::Files { .. } => outcome is Files,
        OperationView::ReadFile { .. } => outcome is Content,
        OperationView::UpdateFile { content, .. } => outcome == OutcomeView::Content(content),
        OperationView::DeleteFile { .. } => outcome is Content,
    }
}

/// Whatever the file system answers, three replies see an operation
/// through, and an operation that succeeds hands back what it is for: a
/// lookup or a creation the project of the given name directly under the
/// base path, a write the content it was given, every other operation an
/// outcome of its own kind.
pub proof fn lemma_outcome_fits(base: Seq<char>, op: OperationView, replies: Seq<FsReplyView>)
    ensures
        replies.len() >= 3 ==> finish(first_step(base, op), replies) is Some,
        finish(first_step(base, op), replies) matches Some(Ok(outcome)) ==> outcome_fits(
            base,
            op,
            outcome,
        ),
        finish(first_step(base, op), replies) matches Some(
            Ok(OutcomeView::Project(project)),
        ) ==> project.lies_under(base),
{
    reveal_with_fuel(finish, 5);
}

/// The step that an operation has reached from `step` when the file
/// system has answered with `replies`, in turn. Replies beyond the
/// operation's end change nothing.
pub open spec fn step_after(step: StepView, replies: Seq<FsReplyView>) -> StepView
    decreases replies.len(),
{
    match step {
        StepView::Done(_) => step,
        StepView::Ask { pending, .. } => if replies.len() == 0 {
            step
        } else {
            step_after(next_step(pending, replies[0]), replies.drop_first())
        },
    }
}

/// The path that a request is about.
pub open spec fn target(request: FsRequestView) -> Seq<char> {
    match request {
        FsRequestView::ListDir { path } => path,
        FsRequestView::Probe { path } => path,
        FsRequestView::ReadFile { path } => path,
        FsRequestView::WriteFile { path, .. } => path,
        FsRequestView::RemoveFile { path } => path,
        FsRequestView::CreateDir { path } => path,
        FsRequestView::RemoveDirAll { path } => path,
    }
}

/// Whether an operation may touch `path`: a listing its directory, a
/// lookup the child of the base path that bears the given name, a
/// creation that child and the manifest in it, the removal of a project
/// the project's directory, and an operation on a file the child of the
/// project's directory that bears the file's name. The name of a lookup
/// can name a child; every other name is one that the sandbox lets
/// through.
pub open spec fn within_reach(base: Seq<char>, op: OperationView, path: Seq<char>) -> bool {
    match op {
        OperationView::AllProjects => path == base,
        OperationView::Project { name } => names_child(name) && path == child_of(base, name),
        OperationView::Create { name } => single_component(name) && (path == child_of(base, name)
            || path == child_of(
            child_of(base, name),
            crate::services::project::service::manifest_name(),
        )),
        OperationView::Delete { project } => path == project.dir,
        OperationView::Files { project } => path == project.dir,
        OperationView::ReadFile { project, file } => single_component(file) && path == child_of(
            project.dir,
            file,
        ),
        OperationView::UpdateFile { project, file, .. } => single_component(file) && path
            == child_of(project.dir, file),
        OperationView::DeleteFile { project, file } => single_component(file) && path == child_of(
            project.dir,
            file,
        ),
    }
}

/// No operation leaves its directory: whatever the file system answers,
/// every request that an operation makes is about a path within its
/// reach. An operation on a file only ever touches the one child of the
/// project's directory that the file's name leads to, and only reads are
/// made by a read, only a write by a write.
pub proof fn lemma_requests_stay_within_reach(
    base: Seq<char>,
    op: OperationView,
    replies: Seq<FsReplyView>,
)
    ensures
        step_after(first_step(base, op), replies) matches StepView::Ask { request, .. }
            ==> within_reach(base, op, target(request)),
        op is ReadFile ==> (step_after(first_step(base, op), replies) matches StepView::Ask {
            request,
            ..
        } ==> request is Probe || request is ReadFile),
        op is UpdateFile ==> (step_after(first_step(base, op), replies) matches StepView::Ask {
            request,
            ..
        } ==> request is WriteFile),
{
    reveal_with_fuel(step_after, 5);
}

/// Whether `path` lies below the directory `dir`, at any depth.
pub open spec fn lies_below(path: Seq<char>, dir: Seq<char>) -> bool {
    let stem = child_of(dir, Seq::empty());
    path.len() > stem.len() && path.take(stem.len() as int) == stem
}

/// A child's path begins with the path of its directory and ends with
/// the child's name, and nothing but one separator stands between them.
pub proof fn lemma_child_is_inside(dir: Seq<char>, name: Seq<char>)
    ensures
        child_of(dir, name) == child_of(dir, Seq::empty()) + name,
        child_of(dir, Seq::empty()).len() <= dir.len() + 1,
        child_of(dir, Seq::empty()).take(dir.len() as int) == dir,
        name.len() > 0 && dir.len() > 0 ==> lies_below(child_of(dir, name), dir),
{
    let stem = child_of(dir, Seq::empty());
    assert(child_of(dir, name) =~= stem + name);
    assert(stem.take(dir.len() as int) =~= dir);
    if name.len() > 0 && dir.len() > 0 {
        assert(child_of(dir, name).take(stem.len() as int) =~= stem);
    }
}

/// Different names lead to different children of a directory.
pub proof fn lemma_children_differ(dir: Seq<char>, a: Seq<char>, b: Seq<char>)
    requires
        a != b,
    ensures
        child_of(dir, a) != child_of(dir, b),
{
    lemma_child_is_inside(dir, a);
    lemma_child_is_inside(dir, b);
    let stem = child_of(dir, Seq::empty());
    if child_of(dir, a) == child_of(dir, b) {
        assert((stem + a).skip(stem.len() as int) =~= a);
        assert((stem + b).skip(stem.len() as int) =~= b);
        assert(false);
    }
}

} // verus!
