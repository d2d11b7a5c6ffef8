//! Views of the tree of a commit.

use crate::content::classify_sized;
use crate::content::Content;
use crate::content::ContentView;
use crate::git::blob_bytes;
use crate::git::blob_of;
use crate::git::blob_size;
use crate::git::entry_id;
use crate::git::id_of;
use crate::git::oid_of;
use crate::git::tree_of;
use crate::git::walk;
use crate::git::TreeItem;
use crate::path::components;
use crate::path::RelPath;
use crate::reader::ReadError;
use vstd::prelude::*;

verus! {

/// Why a view of a commit could not be made or listed.
#[derive(Debug)]
pub enum TreeError {
    /// The tree of the commit with this id could not be had.
    TreeNotFound(git2::Oid, git2::Error),
    /// The walk of the tree failed.
    WalkFailed(git2::Error),
}

/// The path of an entry of a walk, relative to the tree that was walked:
/// the names of the directory that holds it, then its own.
pub open spec fn item_path(item: TreeItem) -> Seq<Seq<char>> {
    match item.name {
        Some(name) => components(item.root@) + components(name@),
        None => components(item.root@),
    }
}

/// What a listing of `dir` hands out for one entry of a walk: for a blob
/// with a name, under `dir`, its path relative to `dir`; nothing for
/// anything else.
pub open spec fn listed_item(item: TreeItem, dir: Seq<Seq<char>>) -> Option<Seq<Seq<char>>> {
    if item.kind == Some(git2::ObjectType::Blob) && item.name is Some && dir.is_prefix_of(
        item_path(item),
    ) {
        Some(item_path(item).skip(dir.len() as int))
    } else {
        None
    }
}

/// The listing of `dir` from the entries of a walk, in their order.
pub open spec fn tree_files(items: Seq<TreeItem>, dir: Seq<Seq<char>>) -> Seq<Seq<Seq<char>>> {
    items.filter_map(|item: TreeItem| listed_item(item, dir))
}

/// Whether `file` is what a listing of `dir` hands out for a blob among
/// `items`: the path of the blob is `dir` followed by `file`.
pub open spec fn names_blob(file: Seq<Seq<char>>, items: Seq<TreeItem>, dir: Seq<Seq<char>>) -> bool {
    exists|i: int|
        0 <= i < items.len() && (#[trigger] items[i]).kind == Some(git2::ObjectType::Blob)
            && item_path(items[i]) == dir + file
}

/// The listing of `dir` from the entries of a walk: every blob under
/// `dir`, in the order of the walk, by its path relative to `dir`. No tree
/// is listed.
pub fn files_under(items: &Vec<TreeItem>, dir: &RelPath) -> (files: Vec<RelPath>)
    ensures
        files.deep_view() == tree_files(items@, dir@),
        forall|k: int| 0 <= k < files.len() ==> names_blob(#[trigger] files[k]@, items@, dir@),
{
    let ghost pick = |item: TreeItem| listed_item(item, dir@);
    let mut files: Vec<RelPath> = Vec::new();
    let mut i: usize = 0;
    assert(items@.take(0) =~= Seq::<TreeItem>::empty());
    assert(files.deep_view() =~= items@.take(0).filter_map(pick));
    while i < items.len()
        invariant
            i <= items.len(),
            pick == (|item: TreeItem| listed_item(item, dir@)),
            files.deep_view() == items@.take(i as int).filter_map(pick),
            forall|k: int| 0 <= k < files.len() ==> names_blob(#[trigger] files[k]@, items@, dir@),
        decreases items.len() - i,
    {
        let ghost before = files.deep_view();
        let ghost old_files = files@;
        proof {
            items@.lemma_filter_map_take_succ(pick, i as int);
            assert(before + Seq::<Seq<Seq<char>>>::empty() =~= before);
        }
        let item = &items[i];
        let blob = match &item.kind {
            Some(git2::ObjectType::Blob) => true,
            _ => false,
        };
        if blob {
            match &item.name {
                Some(name) => {
                    let path = RelPath::parse(item.root.as_str()).join(&RelPath::parse(name.as_str()));
                    match path.strip_prefix(dir) {
                        Some(rest) => {
                            proof {
                                assert(path@ =~= dir@ + rest@);
                            }
                            files.push(rest);
                            proof {
                                let added = item_path(items@[i as int]).skip(dir@.len() as int);
                                assert(files.deep_view() =~= before.push(added));
                                assert(before.push(added) =~= before + seq![added]);
                                assert forall|k: int| 0 <= k < files.len() implies names_blob(
                                    #[trigger] files[k]@,
                                    items@,
                                    dir@,
                                ) by {
                                    if k < old_files.len() {
                                        assert(files[k] == old_files[k]);
                                    } else {
                                        assert(items@[i as int].kind == Some(
                                            git2::ObjectType::Blob,
                                        ));
                                        assert(item_path(items@[i as int]) == dir@ + files[k]@);
                                    }
                                }
                            }
                        },
                        None => {},
                    }
                },
                None => {},
            }
        }
        i = i + 1;
    }
    assert(items@.take(i as int) =~= items@);
    files
}

/// The content of what a lookup found: the classification of the blob by
/// its size and its bytes, or nothing where no blob was found.
pub open spec fn content_found(found: Option<(nat, Seq<u8>)>) -> Option<ContentView> {
    match found {
        Some((size, bytes)) => Some(classify_sized(size, bytes)),
        None => None,
    }
}

/// What a lookup found, as values: the size of the blob and its bytes.
pub open spec fn found_view(found: Option<(usize, &[u8])>) -> Option<(nat, Seq<u8>)> {
    match found {
        Some((size, bytes)) => Some((size as nat, bytes@)),
        None => None,
    }
}

/// Whether `content` is the classification of some blob, whatever its size
/// and its bytes.
pub open spec fn classifies_a_blob(content: ContentView) -> bool {
    exists|size: nat, bytes: Seq<u8>| content == #[trigger] classify_sized(size, bytes)
}

/// What a read gives, from what was looked up: the content of the blob that
/// was found, classified by its size and its bytes, or `NotFound` where no
/// blob was found.
pub fn read_found(found: Option<(usize, &[u8])>) -> (content: Result<Content, ReadError>)
    ensures
        match content {
            Ok(c) => content_found(found_view(found)) == Some(c@),
            Err(e) => e is NotFound && content_found(found_view(found)) is None,
        },
{
    match found {
        Some((size, bytes)) => Ok(Content::from_sized(size, bytes)),
        None => Err(ReadError::NotFound),
    }
}

/// Whether something is there, from what was looked up: it is there exactly
/// where a read of what was found gives content, and not `NotFound`.
pub fn has_found(found: Option<(usize, &[u8])>) -> (present: bool)
    ensures
        present == content_found(found_view(found)) is Some,
{
    found.is_some()
}

/// A view of the tree of one commit. What it shows never changes.
pub struct CommitReader<'reader> {
    repository: &'reader git2::Repository,
    commit_oid: git2::Oid,
    tree: git2::Tree<'reader>,
}

impl<'reader> CommitReader<'reader> {
    /// The id of the commit that is viewed.
    pub closed spec fn commit_oid(&self) -> git2::Oid {
        self.commit_oid
    }

    /// The tree that is viewed.
    pub closed spec fn tree(&self) -> git2::Tree<'reader> {
        self.tree
    }

    /// The repository in which the blobs of the tree are looked up.
    pub closed spec fn repository(&self) -> &'reader git2::Repository {
        self.repository
    }

    /// A view of the tree of `commit`, which reports the id of `commit`; or
    /// `TreeNotFound` with that id where the tree cannot be had.
    pub fn new(repository: &'reader git2::Repository, commit: &git2::Commit<'reader>) -> (reader:
        Result<CommitReader<'reader>, TreeError>)
        ensures
            reader matches Ok(view) ==> view.commit_oid() == oid_of(*commit) && view.repository()
                == repository,
            reader matches Err(e) ==> e matches TreeError::TreeNotFound(of, _) && of == oid_of(
                *commit,
            ),
    {
        CommitReader::of_tree(repository, id_of(commit), tree_of(commit))
    }

    /// The view of a commit from what was looked up of it: its id and its
    /// tree. With the tree, the view is of that tree, over `repository`, and
    /// reports that id; without it there is no view, and `TreeNotFound`
    /// holds the id and the error of the lookup.
    pub fn of_tree(
        repository: &'reader git2::Repository,
        commit_oid: git2::Oid,
        tree: Result<git2::Tree<'reader>, git2::Error>,
    ) -> (reader: Result<CommitReader<'reader>, TreeError>)
        ensures
            match tree {
                Ok(found) => reader matches Ok(view) && view.commit_oid() == commit_oid
                    && view.tree() == found && view.repository() == repository,
                Err(cause) => reader matches Err(TreeError::TreeNotFound(of, why)) && of
                    == commit_oid && why == cause,
            },
    {
        match tree {
            Ok(tree) => Ok(CommitReader { repository, commit_oid, tree }),
            Err(cause) => Err(TreeError::TreeNotFound(commit_oid, cause)),
        }
    }

    /// The id of the commit that is viewed.
    pub fn get_commit_oid(&self) -> (oid: git2::Oid)
        ensures
            oid == self.commit_oid(),
    {
        self.commit_oid
    }

    /// The content of the blob that the tree holds under `path`: the
    /// classification of the blob by its size and its bytes. Where the tree
    /// has no such entry, or the entry is no blob that can be had, the read
    /// fails with `NotFound`, and with nothing else.
    pub fn read(&self, path: &RelPath) -> (content: Result<Content, ReadError>)
        ensures
            content matches Ok(c) ==> classifies_a_blob(c@),
            content matches Err(e) ==> e is NotFound,
    {
        let text = path.to_string();
        let id = match entry_id(&self.tree, text.as_str()) {
            Some(id) => id,
            None => {
                return read_found(None);
            },
        };
        let blob = match blob_of(self.repository, id) {
            Ok(blob) => blob,
            Err(_) => {
                return read_found(None);
            },
        };
        let size = blob_size(&blob);
        let bytes = blob_bytes(&blob);
        let content = read_found(Some((size, bytes)));
        assert(content->Ok_0@ == classify_sized(size as nat, bytes@));
        content
    }

    /// The listing of `dir_path`: the blobs that a walk of the tree finds
    /// under it, by their paths relative to it, or `WalkFailed`.
    pub fn list_files(&self, dir_path: &RelPath) -> (files: Result<Vec<RelPath>, TreeError>)
        ensures
            files matches Err(e) ==> e is WalkFailed,
    {
        match walk(&self.tree) {
            Ok(items) => Ok(files_under(&items, dir_path)),
            Err(cause) => Err(TreeError::WalkFailed(cause)),
        }
    }

    /// Whether a blob is there under `path`: whether a read of `path` would
    /// find one. The blob is looked up as a read looks it up; its bytes are
    /// not looked at. A directory is no blob.
    pub fn has_entry(&self, path: &RelPath) -> (found: bool) {
        let text = path.to_string();
        let id = match entry_id(&self.tree, text.as_str()) {
            Some(id) => id,
            None => {
                return has_found(None);
            },
        };
        let blob = match blob_of(self.repository, id) {
            Ok(blob) => blob,
            Err(_) => {
                return has_found(None);
            },
        };
        has_found(Some((blob_size(&blob), blob_bytes(&blob))))
    }
}

} // verus!
