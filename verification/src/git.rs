//! What the views ask of `git2`.

use vstd::prelude::*;

verus! {

/// `git2::Repository`: nothing of it is looked into.
#[verifier::external_type_specification]
#[verifier::external_body]
pub struct ExRepository(git2::Repository);

/// `git2::Commit`: nothing of it is looked into.
#[verifier::external_type_specification]
#[verifier::external_body]
pub struct ExCommit<'repo>(git2::Commit<'repo>);

/// `git2::Tree`: nothing of it is looked into.
#[verifier::external_type_specification]
#[verifier::external_body]
pub struct ExTree<'repo>(git2::Tree<'repo>);

/// `git2::Blob`: nothing of it is looked into.
#[verifier::external_type_specification]
#[verifier::external_body]
pub struct ExBlob<'repo>(git2::Blob<'repo>);

/// `git2::Oid`, carried as it comes.
#[verifier::external_type_specification]
#[verifier::external_body]
pub struct ExOid(git2::Oid);

/// `git2::Error`, carried as it comes.
#[verifier::external_type_specification]
#[verifier::external_body]
pub struct ExGitError(git2::Error);

/// `git2::ObjectType`, with its five kinds.
#[verifier::external_type_specification]
pub struct ExObjectType(git2::ObjectType);

/// `Commit::tree`: the tree that the commit points to, or the error of the
/// lookup.
#[verifier::external_body]
pub(crate) fn tree_of<'repo>(commit: &git2::Commit<'repo>) -> Result<
    git2::Tree<'repo>,
    git2::Error,
> {
    commit.tree()
}

/// The id of a commit.
pub uninterp spec fn oid_of(commit: git2::Commit) -> git2::Oid;

/// `Commit::id`: the id of the commit.
#[verifier::external_body]
pub(crate) fn id_of(commit: &git2::Commit<'_>) -> (id: git2::Oid)
    ensures
        id == oid_of(*commit),
{
    commit.id()
}

/// `Tree::get_path`, then `TreeEntry::id`: the id of the entry that the
/// tree holds under `path`, or `None` where the lookup fails.
#[verifier::external_body]
pub(crate) fn entry_id(tree: &git2::Tree<'_>, path: &str) -> Option<git2::Oid> {
    match tree.get_path(std::path::Path::new(path)) {
        Ok(entry) => Some(entry.id()),
        Err(_) => None,
    }
}

/// `Repository::find_blob`: the blob with the given id, or the error of the
/// lookup.
#[verifier::external_body]
pub(crate) fn blob_of<'repo>(repository: &'repo git2::Repository, id: git2::Oid) -> Result<
    git2::Blob<'repo>,
    git2::Error,
> {
    repository.find_blob(id)
}

/// `Blob::size`: the size of the blob in bytes.
#[verifier::external_body]
pub(crate) fn blob_size(blob: &git2::Blob<'_>) -> usize {
    blob.size()
}

/// `Blob::content`: the bytes of the blob.
#[verifier::external_body]
pub(crate) fn blob_bytes<'a>(blob: &'a git2::Blob<'_>) -> &'a [u8] {
    blob.content()
}

/// What a walk reports of one entry of a tree.
#[derive(Debug, Clone)]
pub struct TreeItem {
    /// The path of the directory that holds the entry, relative to the tree
    /// that is walked.
    pub root: String,
    /// The name of the entry, where it is valid UTF-8.
    pub name: Option<String>,
    /// The kind of object that the entry points to, where it is known.
    pub kind: Option<git2::ObjectType>,
}

/// `Tree::walk` in pre-order: every entry of the tree and of the trees
/// below it, in the order of the walk, or the error of the walk.
#[verifier::external_body]
pub(crate) fn walk(tree: &git2::Tree<'_>) -> Result<Vec<TreeItem>, git2::Error> {
    let mut items = Vec::new();
    tree.walk(
        git2::TreeWalkMode::PreOrder,
        |root, entry| {
            let name = entry.name().map(|name| name.to_owned());
            items.push(TreeItem { root: root.to_owned(), name, kind: entry.kind() });
            git2::TreeWalkResult::Ok
        },
    )?;
    Ok(items)
}

} // verus!
