//! Typed models of the forge resources the client consumes.
//!
//! Every model holds plain values only; each is produced by the schema
//! decoders in `decode` from a `JsonValue` tree and consumed by the
//! workflow for one decision.  Timestamps are carried verbatim as text:
//! no decision reads them.

use vstd::prelude::*;

verus! {

/// A repository: the identity that scopes every endpoint path.
#[derive(Clone, Debug)]
pub struct Repo {
    pub name: String,
    pub owner_login: String,
    pub private: bool,
    pub fork: bool,
}

/// A branch of a repository at a point in time.
#[derive(Clone, Debug)]
pub struct Branch {
    pub name: String,
    pub sha: String,
    pub protected: bool,
}

/// The kind of object a git reference points to.
#[derive(PartialEq, Eq, Structural, Clone, Copy, Debug)]
pub enum ReferenceType {
    Commit,
    Branch,
}

/// The object a git reference points to.
#[derive(Clone, Debug)]
pub struct ReferenceObject {
    pub reference_type: ReferenceType,
    pub sha: String,
}

/// A named git reference together with the object it points to.
#[derive(Clone, Debug)]
pub struct Reference {
    pub reference: String,
    pub object: ReferenceObject,
}

/// The (empty) body answering a reference deletion or creation.
#[derive(Clone, Debug)]
pub struct DeleteReference {}

/// The lifecycle state of a pull request.
#[derive(PartialEq, Eq, Structural, Clone, Copy, Debug)]
pub enum GithubPullRequestState {
    Open,
    Closed,
}

/// One end of a pull request: a label of the form `"{owner}:{branch}"`, the
/// branch name, and the commit it points at.
#[derive(Clone, Debug)]
pub struct GithubGitPointer {
    pub label: String,
    pub reference: String,
    pub sha: String,
}

/// A pull request.  `mergeable` is tri-state: present and true (clean),
/// present and false (conflicting), or absent (the forge has not yet
/// computed mergeability — retry later, not a failure).
#[derive(Clone, Debug)]
pub struct PullRequest {
    pub number: u64,
    pub state: GithubPullRequestState,
    pub title: String,
    pub head: GithubGitPointer,
    pub base: GithubGitPointer,
    pub draft: bool,
    pub merged: Option<bool>,
    pub mergeable: Option<bool>,
}

/// The relationship of a base branch to a head branch.
#[derive(PartialEq, Eq, Structural, Clone, Copy, Debug)]
pub enum CompareStatus {
    Ahead,
    Behind,
    Diverged,
    Identical,
}

/// The result of comparing two branches.
#[derive(Clone, Copy, Debug)]
pub struct CommitsComparison {
    pub status: CompareStatus,
}

/// The body answering a merge request.
#[derive(Clone, Debug)]
pub struct PullRequestMergeStatus {
    pub sha: String,
    pub merged: bool,
    pub message: String,
}

/// Coarse outcome of a merge attempt.
#[derive(PartialEq, Eq, Structural, Clone, Copy, Debug)]
pub enum MergeStatus {
    Success,
    Failed,
}

/// How a pull request is merged.
#[derive(PartialEq, Eq, Structural, Clone, Copy, Debug)]
pub enum MergeMethod {
    Merge,
    Squash,
    Rebase,
}

/// A parent entry of a commit.
#[derive(Clone, Debug)]
pub struct ParentCommit {
    pub sha: String,
    pub url: String,
    pub html_url: Option<String>,
}

/// Line statistics of a commit.
#[derive(Clone, Copy, Debug)]
pub struct CommitStats {
    pub additions: u64,
    pub deletions: u64,
    pub total: u64,
}

/// A billing plan attached to a user or organization.
#[derive(Clone, Debug)]
pub struct GithubPlan {
    pub collaborators: Option<u64>,
    pub name: String,
    pub space: u64,
    pub private_repos: u64,
    pub filled_seats: Option<u64>,
    pub seats: Option<u64>,
}

/// How a file changed inside a diff.
#[derive(PartialEq, Eq, Structural, Clone, Copy, Debug)]
pub enum GithubDiffStatus {
    Added,
    Removed,
    Modified,
    Renamed,
    Copied,
    Changed,
    Unchanged,
}

/// One file of a diff.
#[derive(Clone, Debug)]
pub struct GithubDiffEntry {
    pub sha: String,
    pub filename: String,
    pub status: GithubDiffStatus,
    pub additions: u64,
    pub deletions: u64,
    pub changes: u64,
}

/// The lifecycle state of a milestone.
#[derive(PartialEq, Eq, Structural, Clone, Copy, Debug)]
pub enum GithubMilestoneState {
    Open,
    Closed,
}

/// An issue label.
#[derive(Clone, Debug)]
pub struct GithubLabel {
    pub id: i64,
    pub name: String,
    pub color: String,
    pub default: bool,
}

/// A team of an organization.
#[derive(Clone, Debug)]
pub struct Team {
    pub id: u64,
    pub name: String,
    pub slug: String,
    pub permissions: TeamPermission,
}

/// The repository permissions of a team.
#[derive(Clone, Copy, Debug)]
pub struct TeamPermission {
    pub pull: bool,
    pub triage: bool,
    pub push: bool,
    pub maintain: bool,
    pub admin: bool,
}

/// A user account.
#[derive(Clone, Debug)]
pub struct User {
    pub login: String,
    pub site_admin: bool,
}

/// How the author of a contribution relates to the repository.
#[derive(PartialEq, Eq, Structural, Clone, Copy, Debug)]
pub enum UserAssociation {
    Collaborator,
    Contributor,
    FirstTimer,
    FirstTimerContributor,
    Mannequin,
    Member,
    NotAssociated,
    Owner,
}

/// An automatic-merge setting attached to a pull request.
#[derive(Clone, Debug)]
pub struct AutoMergeObject {
    pub merge_method: MergeMethod,
    pub commit_title: String,
    pub commit_message: String,
}

/// A milestone.  Timestamps are carried verbatim as text: no decision reads
/// them.
#[derive(Clone, Debug)]
pub struct GithubMilestone {
    pub id: u64,
    pub number: u64,
    pub state: GithubMilestoneState,
    pub title: String,
    pub description: Option<String>,
    pub open_issues: u64,
    pub closed_issues: u64,
    pub created_at: Option<String>,
    pub updated_at: Option<String>,
    pub closed_at: Option<String>,
    pub due_on: Option<String>,
}

/// An organization account.
#[derive(Clone, Debug)]
pub struct Org {
    pub login: String,
    pub name: Option<String>,
    pub description: Option<String>,
}

/// The default repository permission of an organization's members.
#[derive(PartialEq, Eq, Structural, Clone, Copy, Debug)]
pub enum OrgRepoPermission {
    Read,
    Write,
    Admin,
}

/// Which repositories an organization's members may create.
#[derive(PartialEq, Eq, Structural, Clone, Copy, Debug)]
pub enum RepoCreationType {
    All,
    Private,
}

} // verus!
