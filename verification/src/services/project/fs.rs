//! What the project service asks of the file system, and what it is told
//! in return. The service never touches the disk itself: it names a
//! request, and whoever runs it performs the request and hands it the
//! reply.

use vstd::prelude::*;
use vstd::relations::*;
use crate::text::{lemma_text_order_total, text_order};
use crate::services::project::text_views;

verus! {

/// What lies at a path.
#[derive(Clone, Copy, Debug, PartialEq, Eq, Structural)]
pub enum NodeKind {
    Dir,
    File,
    Other,
}

/// One entry of a directory listing.
#[derive(Debug, PartialEq, Eq)]
pub struct DirEntry {
    pub name: String,
    pub kind: NodeKind,
}

/// `DirEntry` with its name as a character sequence.
pub struct DirEntryView {
    pub name: Seq<char>,
    pub kind: NodeKind,
}

impl View for DirEntry {
    type V = DirEntryView;

    open spec fn view(&self) -> DirEntryView {
        DirEntryView { name: self.name@, kind: self.kind }
    }
}

/// The views of the entries of a listing, in order.
pub open spec fn entry_views(entries: Seq<DirEntry>) -> Seq<DirEntryView> {
    entries.map_values(|e: DirEntry| e@)
}

/// A request to the file system.
#[derive(Debug, PartialEq, Eq)]
pub enum FsRequest {
    /// List the entries of the directory at `path`.
    ListDir { path: String },
    /// Say what lies at `path`, if anything.
    Probe { path: String },
    /// Read the file at `path` as text.
    ReadFile { path: String },
    /// Create the file at `path`, or empty it, and write `content` to it.
    WriteFile { path: String, content: String },
    /// Remove the file at `path`.
    RemoveFile { path: String },
    /// Create the directory at `path`.
    CreateDir { path: String },
    /// Remove the directory at `path` with everything below it.
    RemoveDirAll { path: String },
}

/// `FsRequest` with its texts as character sequences.
pub enum FsRequestView {
    ListDir { path: Seq<char> },
    Probe { path: Seq<char> },
    ReadFile { path: Seq<char> },
    WriteFile { path: Seq<char>, content: Seq<char> },
    RemoveFile { path: Seq<char> },
    CreateDir { path: Seq<char> },
    RemoveDirAll { path: Seq<char> },
}

impl View for FsRequest {
    type V = FsRequestView;

    open spec fn view(&self) -> FsRequestView {
        match self {
            FsRequest::ListDir { path } => FsRequestView::ListDir { path: path@ },
            FsRequest::Probe { path } => FsRequestView::Probe { path: path@ },
            FsRequest::ReadFile { path } => FsRequestView::ReadFile { path: path@ },
            FsRequest::WriteFile { path, content } => FsRequestView::WriteFile {
                path: path@,
                content: content@,
            },
            FsRequest::RemoveFile { path } => FsRequestView::RemoveFile { path: path@ },
            FsRequest::CreateDir { path } => FsRequestView::CreateDir { path: path@ },
            FsRequest::RemoveDirAll { path } => FsRequestView::RemoveDirAll { path: path@ },
        }
    }
}

/// The file system's reply to a request.
#[derive(Debug, PartialEq, Eq)]
pub enum FsReply {
    /// The entries of the directory, in any order.
    Listing(Vec<DirEntry>),
    /// What lies at the path; `None` where nothing does.
    Probed(Option<NodeKind>),
    /// The text of the file.
    Content(String),
    /// The request was carried out and has nothing to report.
    Done,
    /// The request could not be carried out.
    Failed,
}

/// `FsReply` with its texts as character sequences.
pub enum FsReplyView {
    Listing(Seq<DirEntryView>),
    Probed(Option<NodeKind>),
    Content(Seq<char>),
    Done,
    Failed,
}

impl View for FsReply {
    type V = FsReplyView;

    open spec fn view(&self) -> FsReplyView {
        match self {
            FsReply::Listing(entries) => FsReplyView::Listing(entry_views(entries@)),
            FsReply::Probed(kind) => FsReplyView::Probed(*kind),
            FsReply::Content(text) => FsReplyView::Content(text@),
            FsReply::Done => FsReplyView::Done,
            FsReply::Failed => FsReplyView::Failed,
        }
    }
}

/// The names of the entries of the given kind, in listing order.
pub open spec fn names_of_kind(entries: Seq<DirEntryView>, kind: NodeKind) -> Seq<Seq<char>>
    decreases entries.len(),
{
    if entries.len() == 0 {
        Seq::empty()
    } else {
        let before = names_of_kind(entries.drop_last(), kind);
        if entries.last().kind == kind {
            before.push(entries.last().name)
        } else {
            before
        }
    }
}

/// The names of the entries of the given kind, in listing order.
pub fn entries_of_kind(entries: &Vec<DirEntry>, kind: NodeKind) -> (names: Vec<String>)
    ensures
        text_views(names@) == names_of_kind(entry_views(entries@), kind),
{
    let mut names: Vec<String> = Vec::new();
    let mut i: usize = 0;
    assert(entry_views(entries@).take(0) =~= Seq::empty());
    assert(text_views(names@) =~= Seq::empty());
    while i < entries.len()
        invariant
            i <= entries.len(),
            text_views(names@) == names_of_kind(entry_views(entries@).take(i as int), kind),
        decreases entries.len() - i,
    {
        let ghost before = text_views(names@);
        let ghost all = entry_views(entries@);
        proof {
            assert(all.take(i + 1).drop_last() =~= all.take(i as int));
            assert(all.take(i + 1).last() == entries@[i as int]@);
        }
        if entries[i].kind == kind {
            names.push(entries[i].name.clone());
            assert(text_views(names@) =~= before.push(entries@[i as int].name@));
        }
        i += 1;
    }
    assert(entry_views(entries@).take(entries.len() as int) =~= entry_views(entries@));
    names
}

/// `names` in the order in which listings are reported: ascending by
/// `text_le`.
pub open spec fn sorted_texts(names: Seq<Seq<char>>) -> Seq<Seq<char>> {
    names.sort_by(text_order())
}

/// Sorts with `Itertools::sorted` of itertools: the names come back
/// rearranged, none lost or added, in the ascending order of `String`,
/// which std documents as the order of the code points.
#[verifier::external_body]
fn sorted_by_itertools(names: Vec<String>) -> (out: Vec<String>)
    ensures
        text_views(out@).to_multiset() == text_views(names@).to_multiset(),
        sorted_by(text_views(out@), text_order()),
{
    itertools::Itertools::sorted(names.into_iter()).collect()
}

/// The names in ascending order.
pub fn sort_names(names: Vec<String>) -> (out: Vec<String>)
    ensures
        text_views(out@) == sorted_texts(text_views(names@)),
{
    let ghost given = text_views(names@);
    let out = sorted_by_itertools(names);
    proof {
        lemma_text_order_total();
        given.lemma_sort_by_ensures(text_order());
        vstd::seq_lib::lemma_sorted_unique(text_views(out@), sorted_texts(given), text_order());
    }
    out
}

/// A sorted listing holds the listed names, each as often as it was
/// listed, in ascending order.
pub proof fn lemma_sorted_texts(names: Seq<Seq<char>>)
    ensures
        sorted_texts(names).to_multiset() == names.to_multiset(),
        sorted_texts(names).len() == names.len(),
        forall|i: int, j: int|
            0 <= i < j < names.len() ==> crate::text::text_le(
                #[trigger] sorted_texts(names)[i],
                #[trigger] sorted_texts(names)[j],
            ),
{
    lemma_text_order_total();
    names.lemma_sort_by_ensures(text_order());
    names.to_multiset_ensures();
    sorted_texts(names).to_multiset_ensures();
    let sorted = sorted_texts(names);
    assert forall|i: int, j: int| 0 <= i < j < names.len() implies crate::text::text_le(
        #[trigger] sorted[i],
        #[trigger] sorted[j],
    ) by {
        assert(text_order()(sorted[i], sorted[j]));
    }
}

} // verus!
