//! Copying a directory tree: which entries of the source are copied, which
//! directories are created, and what is left out.
//!
//! The driver walks the source and reports each entry; this module says what
//! to do with it. The marker file that a download leaves in an unpacked
//! package is never copied.

use vstd::prelude::*;
use vstd::string::StringExecFns;

verus! {

/// The name of the marker file.
pub open spec fn sentinel() -> Seq<char> {
    ".cargo-ok"@
}

/// What kind of thing an entry of the source tree is.
#[derive(Debug, Clone, Copy, PartialEq, Eq, Structural)]
pub enum EntryKind {
    /// A regular file.
    File,
    /// A directory.
    Directory,
    /// Anything else, such as a symbolic link.
    Other,
}

/// One entry that the walk of the source tree visits.
#[derive(Debug, Clone, PartialEq, Eq)]
pub struct TreeEntry {
    /// The entry's path below the root of the walk, component by component;
    /// empty for the root itself.
    pub path: Vec<String>,
    /// The entry's file name.
    pub name: String,
    pub kind: EntryKind,
}

/// What a [`TreeEntry`] stands for.
pub struct TreeEntryModel {
    pub path: Seq<Seq<char>>,
    pub name: Seq<char>,
    pub kind: EntryKind,
}

impl View for TreeEntry {
    type V = TreeEntryModel;

    open spec fn view(&self) -> TreeEntryModel {
        TreeEntryModel { path: self.path.deep_view(), name: self.name@, kind: self.kind }
    }
}

impl DeepView for TreeEntry {
    type V = TreeEntryModel;

    open spec fn deep_view(&self) -> TreeEntryModel {
        self@
    }
}

/// What is done with one entry.
#[derive(Debug, Clone, Copy, PartialEq, Eq, Structural)]
pub enum CopyAction {
    /// Copy the file's bytes to the same path below the destination.
    CopyFile,
    /// Create the directory of the same path below the destination.
    CreateDirectory,
    /// Leave the entry out.
    Skip,
}

/// Why a copy cannot begin.
#[derive(Debug, Clone, Copy, PartialEq, Eq, Structural)]
pub enum CopyError {
    /// The destination is not an existing directory.
    NotADirectory,
}

/// The text that tells a user why a copy into `destination` cannot begin.
pub open spec fn copy_error_text(error: CopyError, destination: Seq<char>) -> Seq<char> {
    match error {
        CopyError::NotADirectory => "not a directory: "@ + destination,
    }
}

impl CopyError {
    /// Writes the text for the error: see [`copy_error_text`].
    pub fn message(&self, destination: &str) -> (text: String)
        ensures
            text@ == copy_error_text(*self, destination@),
    {
        match self {
            CopyError::NotADirectory => {
                let mut message = String::from_str("not a directory: ");
                message.append(destination);
                message
            },
        }
    }
}

/// What is done with `entry`: a regular file is copied unless it bears the
/// marker's name, a directory other than the root is created, and all else
/// is left out.
pub open spec fn action_for(entry: TreeEntryModel) -> CopyAction {
    if entry.kind == EntryKind::File && entry.name != sentinel() {
        CopyAction::CopyFile
    } else if entry.kind == EntryKind::Directory && entry.path.len() > 0 {
        CopyAction::CreateDirectory
    } else {
        CopyAction::Skip
    }
}

/// What is done with each of `entries`, in their order.
pub open spec fn plan_for(entries: Seq<TreeEntryModel>) -> Seq<CopyAction> {
    entries.map_values(|entry: TreeEntryModel| action_for(entry))
}

/// Decides what is done with one entry of the walk.
pub fn copy_action(entry: &TreeEntry) -> (action: CopyAction)
    ensures
        action == action_for(entry@),
{
    match entry.kind {
        EntryKind::File => {
            if entry.name == String::from_str(".cargo-ok") {
                CopyAction::Skip
            } else {
                CopyAction::CopyFile
            }
        },
        EntryKind::Directory => {
            if entry.path.len() > 0 {
                CopyAction::CreateDirectory
            } else {
                CopyAction::Skip
            }
        },
        EntryKind::Other => CopyAction::Skip,
    }
}

/// Plans the copy of a tree into a destination.
///
/// `to_is_directory` says whether the destination is an existing directory;
/// where it is not, the copy does not begin. Otherwise the plan holds, for
/// each entry in the order of the walk, what is done with it.
pub fn clone_directory(to_is_directory: bool, entries: &Vec<TreeEntry>) -> (plan: Result<
    Vec<CopyAction>,
    CopyError,
>)
    ensures
        !to_is_directory ==> plan == Err::<Vec<CopyAction>, CopyError>(CopyError::NotADirectory),
        to_is_directory ==> (plan matches Ok(actions) && actions@ == plan_for(entries.deep_view())),
{
    if !to_is_directory {
        return Err(CopyError::NotADirectory);
    }
    let mut actions: Vec<CopyAction> = Vec::new();
    let mut i: usize = 0;
    while i < entries.len()
        invariant
            i <= entries.len(),
            actions@ == plan_for(entries.deep_view()).take(i as int),
        decreases entries.len() - i,
    {
        let action = copy_action(&entries[i]);
        actions.push(action);
        i += 1;
        assert(plan_for(entries.deep_view()).take(i as int) =~= plan_for(
            entries.deep_view(),
        ).take(i - 1).push(action));
    }
    Ok(actions)
}

// ---------------------------------------------------------------------------
// What a copy leaves in the destination
// ---------------------------------------------------------------------------

/// What stands at a path below the destination.
pub enum Node {
    /// A directory.
    Directory,
    /// A file with the bytes of the source's file at the path `source`.
    File { source: Seq<Seq<char>> },
}

/// The destination, path by path, once the plan for `entries` has been
/// carried out on an empty directory.
pub open spec fn destination_after(entries: Seq<TreeEntryModel>) -> Map<Seq<Seq<char>>, Node>
    decreases entries.len(),
{
    if entries.len() == 0 {
        Map::empty()
    } else {
        let before = destination_after(entries.drop_last());
        let entry = entries.last();
        match action_for(entry) {
            CopyAction::CopyFile => before.insert(entry.path, Node::File { source: entry.path }),
            CopyAction::CreateDirectory => before.insert(entry.path, Node::Directory),
            CopyAction::Skip => before,
        }
    }
}

/// No path is visited twice.
pub open spec fn distinct_paths(entries: Seq<TreeEntryModel>) -> bool {
    forall|i: int, j: int|
        0 <= i < j < entries.len() ==> (#[trigger] entries[i]).path != (#[trigger] entries[j]).path
}

/// Every entry below the root is named by the last component of its path.
pub open spec fn named_by_path(entries: Seq<TreeEntryModel>) -> bool {
    forall|i: int|
        0 <= i < entries.len() && (#[trigger] entries[i]).path.len() > 0 ==> entries[i].name
            == entries[i].path.last()
}

/// The directory that holds entry `i` was visited before it.
pub open spec fn parent_comes_first(entries: Seq<TreeEntryModel>, i: int) -> bool {
    exists|j: int|
        0 <= j < i && (#[trigger] entries[j]).kind == EntryKind::Directory && entries[j].path
            == entries[i].path.drop_last()
}

/// The walk visits a directory before what lies in it.
pub open spec fn parents_first(entries: Seq<TreeEntryModel>) -> bool {
    forall|i: int|
        0 <= i < entries.len() && entries[i].path.len() > 0 ==> #[trigger] parent_comes_first(
            entries,
            i,
        )
}

/// Whatever stands in the destination was put there for an entry of the
/// walk that is not left out.
pub proof fn lemma_destination_holds_nothing_else(
    entries: Seq<TreeEntryModel>,
    path: Seq<Seq<char>>,
) -> (i: int)
    requires
        destination_after(entries).dom().contains(path),
    ensures
        0 <= i < entries.len(),
        entries[i].path == path,
        action_for(entries[i]) != CopyAction::Skip,
    decreases entries.len(),
{
    if action_for(entries.last()) != CopyAction::Skip && entries.last().path == path {
        entries.len() - 1
    } else {
        lemma_destination_holds_nothing_else(entries.drop_last(), path)
    }
}

/// Every entry of the walk appears in the destination at its own path, as
/// what the plan says: a file that is copied as a file with the same bytes,
/// a directory that is created as a directory, and an entry that is left
/// out not at all.
pub proof fn lemma_copy_mirrors_the_tree(entries: Seq<TreeEntryModel>, i: int)
    requires
        distinct_paths(entries),
        0 <= i < entries.len(),
    ensures
        ({
            let path = entries[i].path;
            let destination = destination_after(entries);
            match action_for(entries[i]) {
                CopyAction::CopyFile => destination.dom().contains(path) && destination[path]
                    == (Node::File { source: path }),
                CopyAction::CreateDirectory => destination.dom().contains(path)
                    && destination[path] == Node::Directory,
                CopyAction::Skip => !destination.dom().contains(path),
            }
        }),
    decreases entries.len(),
{
    let before = entries.drop_last();
    let path = entries[i].path;
    if i < entries.len() - 1 {
        lemma_copy_mirrors_the_tree(before, i);
    } else if action_for(entries[i]) == CopyAction::Skip {
        if destination_after(before).dom().contains(path) {
            lemma_destination_holds_nothing_else(before, path);
        }
    }
}

/// No file of the destination that lies below its root bears the marker's
/// name.
pub proof fn lemma_marker_is_never_copied(entries: Seq<TreeEntryModel>, path: Seq<Seq<char>>)
    requires
        distinct_paths(entries),
        named_by_path(entries),
        destination_after(entries).dom().contains(path),
        destination_after(entries)[path] is File,
        path.len() > 0,
    ensures
        path.last() != sentinel(),
{
    let i = lemma_destination_holds_nothing_else(entries, path);
    lemma_copy_mirrors_the_tree(entries, i);
}

/// When an entry is copied or created, the directory that is to hold it
/// stands in the destination already: it is the destination itself, or a
/// directory that was created for an earlier entry.
pub proof fn lemma_parent_stands_first(entries: Seq<TreeEntryModel>, i: int)
    requires
        distinct_paths(entries),
        parents_first(entries),
        0 <= i < entries.len(),
        entries[i].path.len() > 1,
    ensures
        ({
            let parent = entries[i].path.drop_last();
            let destination = destination_after(entries.take(i));
            destination.dom().contains(parent) && destination[parent] == Node::Directory
        }),
{
    assert(parent_comes_first(entries, i));
    let j = choose|j: int|
        0 <= j < i && (#[trigger] entries[j]).kind == EntryKind::Directory && entries[j].path
            == entries[i].path.drop_last();
    lemma_copy_mirrors_the_tree(entries.take(i), j);
}

} // verus!
