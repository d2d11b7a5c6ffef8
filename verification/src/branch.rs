//! The base branch of a project, as far as the controller rewrites it: the
//! avatar of the author of each of its commits.

use crate::controller::Controller;
use vstd::prelude::*;

verus! {

/// The author of a commit.
#[derive(Debug, PartialEq, Eq)]
pub struct Author {
    pub name: String,
    pub email: String,
    /// Where the picture of the author is to be had.
    pub gravatar_url: String,
}

/// A commit of a branch.
#[derive(Debug, PartialEq, Eq)]
pub struct VirtualBranchCommit {
    pub id: String,
    pub description: String,
    pub created_at: u128,
    pub author: Author,
}

/// The branch that the virtual branches of a project are tracked against.
#[derive(Debug, PartialEq, Eq)]
pub struct BaseBranch {
    pub branch_name: String,
    pub remote_name: String,
    pub remote_url: String,
    pub base_sha: String,
    pub current_sha: String,
    pub behind: u32,
    pub upstream_commits: Vec<VirtualBranchCommit>,
    pub recent_commits: Vec<VirtualBranchCommit>,
}

/// The commit with the avatar of its author replaced by what the proxy
/// gave; where the proxy gave nothing, the commit as it is.
pub open spec fn with_avatar(commit: VirtualBranchCommit, proxied: Option<String>)
    -> VirtualBranchCommit {
    match proxied {
        Some(url) => VirtualBranchCommit {
            author: Author { gravatar_url: url, ..commit.author },
            ..commit
        },
        None => commit,
    }
}

/// The commits, in their order, each with the avatar that the proxy gave
/// for it. A commit for which there is no answer stays as it is.
pub open spec fn with_avatars(
    commits: Seq<VirtualBranchCommit>,
    proxied: Seq<Option<String>>,
) -> Seq<VirtualBranchCommit> {
    Seq::new(
        commits.len(),
        |i: int|
            if i < proxied.len() {
                with_avatar(commits[i], proxied[i])
            } else {
                commits[i]
            },
    )
}

/// The avatars of the authors of the commits, one for each commit, in the
/// order of the commits.
pub open spec fn avatars_of(commits: Seq<VirtualBranchCommit>) -> Seq<String> {
    Seq::new(commits.len(), |i: int| commits[i].author.gravatar_url)
}

/// The avatars to hand to the proxy: one for each commit, in order.
pub fn avatar_urls(commits: &Vec<VirtualBranchCommit>) -> (urls: Vec<String>)
    ensures
        urls@ == avatars_of(commits@),
{
    let mut urls: Vec<String> = Vec::new();
    let mut i: usize = 0;
    while i < commits.len()
        invariant
            i <= commits.len(),
            urls@ == avatars_of(commits@.take(i as int)),
        decreases commits.len() - i,
    {
        urls.push(commits[i].author.gravatar_url.clone());
        i = i + 1;
        assert(urls@ =~= avatars_of(commits@.take(i as int)));
    }
    assert(commits@.take(i as int) =~= commits@);
    urls
}

/// The commits with the avatars that the proxy gave. The answers are taken
/// in the order of the commits; `None` stands for an avatar that the proxy
/// failed on, and leaves the avatar as it was.
pub fn proxy_commits(commits: &Vec<VirtualBranchCommit>, proxied: &Vec<Option<String>>) -> (out:
    Vec<VirtualBranchCommit>)
    ensures
        out@ == with_avatars(commits@, proxied@),
{
    let mut out: Vec<VirtualBranchCommit> = Vec::new();
    let mut i: usize = 0;
    while i < commits.len()
        invariant
            i <= commits.len(),
            out@ == with_avatars(commits@, proxied@).take(i as int),
        decreases commits.len() - i,
    {
        let commit = &commits[i];
        let url = if i < proxied.len() {
            match &proxied[i] {
                Some(url) => url.clone(),
                None => commit.author.gravatar_url.clone(),
            }
        } else {
            commit.author.gravatar_url.clone()
        };
        out.push(
            VirtualBranchCommit {
                id: commit.id.clone(),
                description: commit.description.clone(),
                created_at: commit.created_at,
                author: Author {
                    name: commit.author.name.clone(),
                    email: commit.author.email.clone(),
                    gravatar_url: url,
                },
            },
        );
        i = i + 1;
        assert(out@ =~= with_avatars(commits@, proxied@).take(i as int));
    }
    assert(with_avatars(commits@, proxied@).take(i as int) =~= with_avatars(commits@, proxied@));
    out
}

impl Controller {
    /// The base branch with the avatars that the proxy gave for its recent
    /// commits and for its upstream commits. Nothing else of it changes,
    /// and a failure of the proxy changes nothing at all.
    pub fn proxy_base_branch(
        &self,
        target: BaseBranch,
        recent: &Vec<Option<String>>,
        upstream: &Vec<Option<String>>,
    ) -> (out: BaseBranch)
        ensures
            out.recent_commits@ == with_avatars(target.recent_commits@, recent@),
            out.upstream_commits@ == with_avatars(target.upstream_commits@, upstream@),
            out.branch_name == target.branch_name,
            out.remote_name == target.remote_name,
            out.remote_url == target.remote_url,
            out.base_sha == target.base_sha,
            out.current_sha == target.current_sha,
            out.behind == target.behind,
    {
        let recent_commits = proxy_commits(&target.recent_commits, recent);
        let upstream_commits = proxy_commits(&target.upstream_commits, upstream);
        BaseBranch {
            branch_name: target.branch_name,
            remote_name: target.remote_name,
            remote_url: target.remote_url,
            base_sha: target.base_sha,
            current_sha: target.current_sha,
            behind: target.behind,
            upstream_commits,
            recent_commits,
        }
    }
}

} // verus!
