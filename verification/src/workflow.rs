//! The per-repository orchestration state machine.
//!
//! For one repository the workflow runs as a sequence of decisions: each
//! `step` consumes the outcome of the previous API call (an `Event`) and
//! returns the next waiting phase, the next call to issue (an `Action`), and
//! the notes to log.  The caller performs the action, hands the outcome back
//! as the next event, and stops when the phase is `Finished`.  Every
//! decision rule lives here; no caller decides anything.

use vstd::prelude::*;

use crate::errors::ApiError;
use crate::models::{
    Branch, CommitsComparison, CompareStatus, DeleteReference, PullRequest,
    PullRequestMergeStatus, Reference, Repo,
};

verus! {

/// The run configuration that drives every per-repository decision.
pub struct RunOptions {
    pub from: String,
    pub to: String,
    pub reference: String,
    pub create_pulls: bool,
    pub merge: bool,
    pub create_branches: bool,
    pub delete_branches: bool,
}

/// The terminal outcome of one repository's workflow.  `AbortRun` is
/// configuration-class: it ends the whole run, because the same mistake
/// would repeat for every repository.
#[derive(PartialEq, Eq, Structural, Clone, Copy, Debug)]
pub enum RepoOutcome {
    Done { merged: bool },
    Skipped,
    AbortRun,
}

/// The waiting phases of the workflow: each names the API call whose
/// outcome the machine waits for, with what it already knows.
pub enum Phase {
    AwaitRepo,
    AwaitBranches { repo: Repo },
    AwaitSourceRef { repo: Repo },
    AwaitRefCreate { repo: Repo },
    AwaitComparison { repo: Repo },
    AwaitPulls { repo: Repo },
    AwaitFullPull { repo: Repo, number: u64 },
    AwaitCreatedPull { repo: Repo },
    AwaitMerge { repo: Repo, pr: PullRequest },
    AwaitRefDelete { repo: Repo },
    Finished { outcome: RepoOutcome },
}

/// The outcome of the API call a phase was waiting for.
pub enum Event {
    RepoFetched(Result<Repo, ApiError>),
    BranchesFetched(Result<Vec<Branch>, ApiError>),
    SourceRefFetched(Result<Reference, ApiError>),
    RefCreated(Result<DeleteReference, ApiError>),
    ComparisonFetched(Result<CommitsComparison, ApiError>),
    PullsFetched(Result<Vec<PullRequest>, ApiError>),
    PullFetched(Result<PullRequest, ApiError>),
    PullCreated(Result<PullRequest, ApiError>),
    MergeFinished(Result<PullRequestMergeStatus, ApiError>),
    RefDeleted(Result<DeleteReference, ApiError>),
}

/// The next API call to issue.  The action carries everything the call must
/// not get wrong: the repository name, the comparison's orientation, the
/// reference name and SHA to create, the new pull request's title, the pull
/// request number to fetch or merge.  The pull request listing's query
/// (open, head `from`, base `to`) comes from the run options.
pub enum Action {
    FetchBranches { repo_name: String },
    FetchComparison { repo_name: String, base: String, head: String },
    FetchSourceRef { repo_name: String },
    CreateRef { repo_name: String, ref_name: String, sha: String },
    ListPulls { repo_name: String },
    FetchPull { repo_name: String, number: u64 },
    CreatePull { repo_name: String, title: String },
    MergePull { repo_name: String, number: u64 },
    DeleteSourceRef { repo_name: String },
}

/// What a step wants logged.
#[derive(PartialEq, Eq, Structural, Clone, Copy, Debug)]
pub enum Note {
    SkippedRepoFetch,
    SkippedBranchesFetch,
    SourceBranchMissing,
    DestinationExists,
    SkippedSourceRefFetch,
    BranchCreated,
    BranchCreateFailed,
    DestinationMissing,
    SkippedComparisonFetch,
    NothingToMerge,
    SkippedPullsFetch,
    ExistingPullFound,
    SkippedPullFetch,
    NoPullResolved,
    PullCreateFailed,
    MergeConflict,
    MergeabilityUnknown,
    MergeFailed,
    MergeNotConfirmed,
    SourceDeleteFailed,
}

/// One decision: the next phase, the call to issue (none when the phase is
/// terminal), and the notes to log.
pub struct Step {
    pub next: Phase,
    pub action: Option<Action>,
    pub notes: Vec<Note>,
}

/// Whether `name` appears among `branches`.
pub open spec fn has_branch(branches: Seq<Branch>, name: Seq<char>) -> bool {
    exists|i: int| 0 <= i < branches.len() && branches[i].name@ == name
}

/// Scans the branch list for `name`.
pub fn branch_listed(branches: &Vec<Branch>, name: &str) -> (r: bool)
    ensures
        r == has_branch(branches@, name@),
{
    let n = branches.len();
    let mut i: usize = 0;
    while i < n
        invariant
            n == branches@.len(),
            i <= n,
            forall|j: int| 0 <= j < i ==> branches@[j].name@ != name@,
        decreases n - i,
    {
        if crate::json::str_eq(branches[i].name.as_str(), name) {
            return true;
        }
        i += 1;
    }
    false
}

/// Whether `pr` connects `owner`'s branch `from` to `owner`'s branch `to`:
/// the head label reads `owner:from` and the base label `owner:to`.
pub open spec fn labels_match(
    pr: PullRequest,
    owner: Seq<char>,
    from: Seq<char>,
    to: Seq<char>,
) -> bool {
    pr.head.label@ == owner + ":"@ + from && pr.base.label@ == owner + ":"@ + to
}

/// Scans the open pull requests for the first whose labels match exactly.
pub fn find_matching_pull(pulls: &Vec<PullRequest>, owner: &str, from: &str, to: &str) -> (r:
    Option<usize>)
    ensures
        match r {
            Some(i) => i < pulls@.len() && labels_match(pulls@[i as int], owner@, from@, to@) && (
            forall|j: int| 0 <= j < i ==> !labels_match(pulls@[j], owner@, from@, to@)),
            None => forall|j: int|
                0 <= j < pulls@.len() ==> !labels_match(pulls@[j], owner@, from@, to@),
        },
{
    let head_label = crate::client::label_of(owner, from);
    let base_label = crate::client::label_of(owner, to);
    let n = pulls.len();
    let mut i: usize = 0;
    while i < n
        invariant
            n == pulls@.len(),
            i <= n,
            head_label@ == owner@ + ":"@ + from@,
            base_label@ == owner@ + ":"@ + to@,
            forall|j: int| 0 <= j < i ==> !labels_match(pulls@[j], owner@, from@, to@),
        decreases n - i,
    {
        let head_ok = crate::json::str_eq(pulls[i].head.label.as_str(), head_label.as_str());
        if head_ok && crate::json::str_eq(pulls[i].base.label.as_str(), base_label.as_str()) {
            return Some(i);
        }
        i += 1;
    }
    None
}

/// Whether `event` is the kind of outcome `phase` waits for.
pub open spec fn expects(phase: Phase, event: Event) -> bool {
    match (phase, event) {
        (Phase::AwaitRepo, Event::RepoFetched(_)) => true,
        (Phase::AwaitBranches { .. }, Event::BranchesFetched(_)) => true,
        (Phase::AwaitSourceRef { .. }, Event::SourceRefFetched(_)) => true,
        (Phase::AwaitRefCreate { .. }, Event::RefCreated(_)) => true,
        (Phase::AwaitComparison { .. }, Event::ComparisonFetched(_)) => true,
        (Phase::AwaitPulls { .. }, Event::PullsFetched(_)) => true,
        (Phase::AwaitFullPull { .. }, Event::PullFetched(_)) => true,
        (Phase::AwaitCreatedPull { .. }, Event::PullCreated(_)) => true,
        (Phase::AwaitMerge { .. }, Event::MergeFinished(_)) => true,
        (Phase::AwaitRefDelete { .. }, Event::RefDeleted(_)) => true,
        _ => false,
    }
}

/// What the machine does once a pull request is in hand: merge only when
/// merging was requested and the forge reports the pull request cleanly
/// mergeable; a conflict or a not-yet-computed mergeability is logged and
/// left alone.
pub open spec fn merge_entry_matches(opts: RunOptions, repo: Repo, pr: PullRequest, s: Step) -> bool {
    if !opts.merge {
        s.next == (Phase::Finished { outcome: RepoOutcome::Done { merged: false } })
            && s.action is None && s.notes@ == Seq::<Note>::empty()
    } else {
        match pr.mergeable {
            Some(true) => s.next == (Phase::AwaitMerge { repo, pr }) && s.action == Some(
                Action::MergePull { repo_name: repo.name, number: pr.number },
            ) && s.notes@ == Seq::<Note>::empty(),
            Some(false) => s.next == (Phase::Finished {
                outcome: RepoOutcome::Done { merged: false },
            }) && s.action is None && s.notes@ == seq![Note::MergeConflict],
            None => s.next == (Phase::Finished { outcome: RepoOutcome::Done { merged: false } })
                && s.action is None && s.notes@ == seq![Note::MergeabilityUnknown],
        }
    }
}

/// The transition relation of the workflow: what `step` returns for each
/// phase and event.
pub open spec fn step_matches(
    opts: RunOptions,
    owner: Seq<char>,
    phase: Phase,
    event: Event,
    s: Step,
) -> bool {
    match (phase, event) {
        (Phase::AwaitRepo, Event::RepoFetched(res)) => match res {
            Ok(repo) => s.next == (Phase::AwaitBranches { repo }) && s.action == Some(
                Action::FetchBranches { repo_name: repo.name },
            ) && s.notes@ == Seq::<Note>::empty(),
            Err(_) => s.next == (Phase::Finished { outcome: RepoOutcome::Skipped })
                && s.action is None && s.notes@ == seq![Note::SkippedRepoFetch],
        },
        (Phase::AwaitBranches { repo }, Event::BranchesFetched(res)) => match res {
            Ok(branches) => {
                let src = has_branch(branches@, opts.from@);
                let dst = has_branch(branches@, opts.to@);
                let dst_note = dst && opts.create_branches && !opts.create_pulls;
                if dst {
                    s.next == (Phase::AwaitComparison { repo }) && (s.action matches Some(a) && a
                        matches Action::FetchComparison { repo_name, base, head } && repo_name
                        == repo.name && base == opts.from && head == opts.to) && s.notes@ == (
                        if !src && dst_note {
                            seq![Note::SourceBranchMissing, Note::DestinationExists]
                        } else if !src {
                            seq![Note::SourceBranchMissing]
                        } else if dst_note {
                            seq![Note::DestinationExists]
                        } else {
                            Seq::<Note>::empty()
                        }
                    )
                } else if opts.create_branches {
                    s.next == (Phase::AwaitSourceRef { repo }) && s.action == Some(
                        Action::FetchSourceRef { repo_name: repo.name },
                    ) && s.notes@ == (
                        if !src {
                            seq![Note::SourceBranchMissing]
                        } else {
                            Seq::<Note>::empty()
                        }
                    )
                } else {
                    s.next == (Phase::Finished { outcome: RepoOutcome::AbortRun })
                        && s.action is None && s.notes@ == (
                        if !src {
                            seq![Note::SourceBranchMissing, Note::DestinationMissing]
                        } else {
                            seq![Note::DestinationMissing]
                        }
                    )
                }
            },
            Err(_) => s.next == (Phase::Finished { outcome: RepoOutcome::Skipped })
                && s.action is None && s.notes@ == seq![Note::SkippedBranchesFetch],
        },
        (Phase::AwaitSourceRef { repo }, Event::SourceRefFetched(res)) => match res {
            Ok(reference) => s.next == (Phase::AwaitRefCreate { repo }) && (s.action matches Some(
                a,
            ) && a matches Action::CreateRef { repo_name, ref_name, sha } && repo_name == repo.name
                && ref_name@ == "refs/heads/"@ + opts.to@ && sha == reference.object.sha)
                && s.notes@ == Seq::<Note>::empty(),
            Err(_) => s.next == (Phase::Finished { outcome: RepoOutcome::Skipped })
                && s.action is None && s.notes@ == seq![Note::SkippedSourceRefFetch],
        },
        (Phase::AwaitRefCreate { .. }, Event::RefCreated(res)) => match res {
            Ok(_) => s.next == (Phase::Finished { outcome: RepoOutcome::Done { merged: false } })
                && s.action is None && s.notes@ == seq![Note::BranchCreated],
            Err(_) => s.next == (Phase::Finished { outcome: RepoOutcome::AbortRun })
                && s.action is None && s.notes@ == seq![Note::BranchCreateFailed],
        },
        (Phase::AwaitComparison { repo }, Event::ComparisonFetched(res)) => match res {
            Ok(comp) => match comp.status {
                CompareStatus::Behind | CompareStatus::Diverged => s.next == (Phase::AwaitPulls {
                    repo,
                }) && s.action == Some(Action::ListPulls { repo_name: repo.name }) && s.notes@
                    == Seq::<Note>::empty(),
                CompareStatus::Ahead | CompareStatus::Identical => s.next == (Phase::Finished {
                    outcome: RepoOutcome::Done { merged: false },
                }) && s.action is None && s.notes@ == seq![Note::NothingToMerge],
            },
            Err(_) => s.next == (Phase::Finished { outcome: RepoOutcome::Skipped })
                && s.action is None && s.notes@ == seq![Note::SkippedComparisonFetch],
        },
        (Phase::AwaitPulls { repo }, Event::PullsFetched(res)) => match res {
            Ok(pulls) => {
                if exists|i: int|
                    0 <= i < pulls@.len() && labels_match(pulls@[i], owner, opts.from@, opts.to@) {
                    exists|i: int|
                        {
                            &&& 0 <= i < pulls@.len()
                            &&& labels_match(pulls@[i], owner, opts.from@, opts.to@)
                            &&& forall|j: int|
                                0 <= j < i ==> !labels_match(pulls@[j], owner, opts.from@, opts.to@)
                            &&& s.next == (Phase::AwaitFullPull {
                                repo,
                                number: pulls@[i].number,
                            })
                            &&& s.action == Some(
                                Action::FetchPull {
                                    repo_name: repo.name,
                                    number: pulls@[i].number,
                                },
                            )
                            &&& s.notes@ == seq![Note::ExistingPullFound]
                        }
                } else if opts.create_pulls {
                    s.next == (Phase::AwaitCreatedPull { repo }) && (s.action matches Some(a) && a
                        matches Action::CreatePull { repo_name, title } && repo_name == repo.name
                        && title@ == "PR for: "@ + opts.reference@ + ". "@ + opts.from@ + " into "@
                        + opts.to@) && s.notes@ == Seq::<Note>::empty()
                } else {
                    s.next == (Phase::Finished {
                        outcome: RepoOutcome::Done { merged: false },
                    }) && s.action is None && s.notes@ == seq![Note::NoPullResolved]
                }
            },
            Err(_) => s.next == (Phase::Finished { outcome: RepoOutcome::Skipped })
                && s.action is None && s.notes@ == seq![Note::SkippedPullsFetch],
        },
        (Phase::AwaitFullPull { repo, .. }, Event::PullFetched(res)) => match res {
            Ok(pr) => merge_entry_matches(opts, repo, pr, s),
            Err(_) => s.next == (Phase::Finished { outcome: RepoOutcome::Skipped })
                && s.action is None && s.notes@ == seq![Note::SkippedPullFetch],
        },
        (Phase::AwaitCreatedPull { repo }, Event::PullCreated(res)) => match res {
            Ok(pr) => merge_entry_matches(opts, repo, pr, s),
            Err(_) => s.next == (Phase::Finished { outcome: RepoOutcome::Done { merged: false } })
                && s.action is None && s.notes@ == seq![Note::PullCreateFailed],
        },
        (Phase::AwaitMerge { repo, .. }, Event::MergeFinished(res)) => match res {
            Ok(ms) => {
                if ms.merged && opts.delete_branches {
                    s.next == (Phase::AwaitRefDelete { repo }) && s.action == Some(
                        Action::DeleteSourceRef { repo_name: repo.name },
                    ) && s.notes@ == Seq::<Note>::empty()
                } else if ms.merged {
                    s.next == (Phase::Finished { outcome: RepoOutcome::Done { merged: true } })
                        && s.action is None && s.notes@ == Seq::<Note>::empty()
                } else {
                    s.next == (Phase::Finished { outcome: RepoOutcome::Done { merged: false } })
                        && s.action is None && s.notes@ == seq![Note::MergeNotConfirmed]
                }
            },
            Err(_) => s.next == (Phase::Finished { outcome: RepoOutcome::Done { merged: false } })
                && s.action is None && s.notes@ == seq![Note::MergeFailed],
        },
        (Phase::AwaitRefDelete { .. }, Event::RefDeleted(res)) => match res {
            Ok(_) => s.next == (Phase::Finished { outcome: RepoOutcome::Done { merged: true } })
                && s.action is None && s.notes@ == Seq::<Note>::empty(),
            Err(_) => s.next == (Phase::Finished { outcome: RepoOutcome::Done { merged: true } })
                && s.action is None && s.notes@ == seq![Note::SourceDeleteFailed],
        },
        _ => false,
    }
}

/// What the machine does once a pull request is in hand.
fn merge_entry(opts: &RunOptions, repo: Repo, pr: PullRequest) -> (s: Step)
    ensures
        merge_entry_matches(*opts, repo, pr, s),
{
    if !opts.merge {
        Step {
            next: Phase::Finished { outcome: RepoOutcome::Done { merged: false } },
            action: None,
            notes: Vec::new(),
        }
    } else {
        match pr.mergeable {
            Some(true) => {
                let repo_name = repo.name.clone();
                let number = pr.number;
                Step {
                    next: Phase::AwaitMerge { repo, pr },
                    action: Some(Action::MergePull { repo_name, number }),
                    notes: Vec::new(),
                }
            },
            Some(false) => {
                let mut notes: Vec<Note> = Vec::new();
                notes.push(Note::MergeConflict);
                Step {
                    next: Phase::Finished { outcome: RepoOutcome::Done { merged: false } },
                    action: None,
                    notes,
                }
            },
            None => {
                let mut notes: Vec<Note> = Vec::new();
                notes.push(Note::MergeabilityUnknown);
                Step {
                    next: Phase::Finished { outcome: RepoOutcome::Done { merged: false } },
                    action: None,
                    notes,
                }
            },
        }
    }
}

/// A terminal step with the given outcome and one note.
fn finish(outcome: RepoOutcome, note: Note) -> (s: Step)
    ensures
        s.next == (Phase::Finished { outcome }),
        s.action is None,
        s.notes@ == seq![note],
{
    let mut notes: Vec<Note> = Vec::new();
    notes.push(note);
    Step { next: Phase::Finished { outcome }, action: None, notes }
}

/// One decision of the workflow.
pub fn step(opts: &RunOptions, owner: &str, phase: Phase, event: Event) -> (s: Step)
    requires
        expects(phase, event),
    ensures
        step_matches(*opts, owner@, phase, event, s),
{
    match (phase, event) {
        (Phase::AwaitRepo, Event::RepoFetched(res)) => match res {
            Ok(repo) => {
                let repo_name = repo.name.clone();
                Step {
                    next: Phase::AwaitBranches { repo },
                    action: Some(Action::FetchBranches { repo_name }),
                    notes: Vec::new(),
                }
            },
            Err(_) => finish(RepoOutcome::Skipped, Note::SkippedRepoFetch),
        },
        (Phase::AwaitBranches { repo }, Event::BranchesFetched(res)) => match res {
            Ok(branches) => {
                let src = branch_listed(&branches, opts.from.as_str());
                let dst = branch_listed(&branches, opts.to.as_str());
                let mut notes: Vec<Note> = Vec::new();
                if !src {
                    notes.push(Note::SourceBranchMissing);
                }
                if dst {
                    if opts.create_branches && !opts.create_pulls {
                        notes.push(Note::DestinationExists);
                    }
                    proof {
                        let ghost sspec = has_branch(branches@, opts.from@);
                        let ghost dnote = has_branch(branches@, opts.to@) && opts.create_branches
                            && !opts.create_pulls;
                        assert(notes@ == (if !sspec && dnote {
                            seq![Note::SourceBranchMissing, Note::DestinationExists]
                        } else if !sspec {
                            seq![Note::SourceBranchMissing]
                        } else if dnote {
                            seq![Note::DestinationExists]
                        } else {
                            Seq::<Note>::empty()
                        }));
                    }
                    let repo_name = repo.name.clone();
                    let base = opts.from.clone();
                    let head = opts.to.clone();
                    Step {
                        next: Phase::AwaitComparison { repo },
                        action: Some(Action::FetchComparison { repo_name, base, head }),
                        notes,
                    }
                } else if opts.create_branches {
                    let repo_name = repo.name.clone();
                    Step {
                        next: Phase::AwaitSourceRef { repo },
                        action: Some(Action::FetchSourceRef { repo_name }),
                        notes,
                    }
                } else {
                    notes.push(Note::DestinationMissing);
                    proof {
                        let ghost sspec = has_branch(branches@, opts.from@);
                        assert(!has_branch(branches@, opts.to@));
                        assert(sspec == src);
                        assert(notes@ == (if !sspec {
                            seq![Note::SourceBranchMissing, Note::DestinationMissing]
                        } else {
                            seq![Note::DestinationMissing]
                        }));
                    }
                    Step {
                        next: Phase::Finished { outcome: RepoOutcome::AbortRun },
                        action: None,
                        notes,
                    }
                }
            },
            Err(_) => finish(RepoOutcome::Skipped, Note::SkippedBranchesFetch),
        },
        (Phase::AwaitSourceRef { repo }, Event::SourceRefFetched(res)) => match res {
            Ok(reference) => {
                let repo_name = repo.name.clone();
                let ref_name = crate::client::ref_path(opts.to.as_str());
                Step {
                    next: Phase::AwaitRefCreate { repo },
                    action: Some(
                        Action::CreateRef { repo_name, ref_name, sha: reference.object.sha },
                    ),
                    notes: Vec::new(),
                }
            },
            Err(_) => finish(RepoOutcome::Skipped, Note::SkippedSourceRefFetch),
        },
        (Phase::AwaitRefCreate { .. }, Event::RefCreated(res)) => match res {
            Ok(_) => finish(RepoOutcome::Done { merged: false }, Note::BranchCreated),
            Err(_) => finish(RepoOutcome::AbortRun, Note::BranchCreateFailed),
        },
        (Phase::AwaitComparison { repo }, Event::ComparisonFetched(res)) => match res {
            Ok(comp) => match comp.status {
                CompareStatus::Behind | CompareStatus::Diverged => {
                    let repo_name = repo.name.clone();
                    Step {
                        next: Phase::AwaitPulls { repo },
                        action: Some(Action::ListPulls { repo_name }),
                        notes: Vec::new(),
                    }
                },
                CompareStatus::Ahead | CompareStatus::Identical => finish(
                    RepoOutcome::Done { merged: false },
                    Note::NothingToMerge,
                ),
            },
            Err(_) => finish(RepoOutcome::Skipped, Note::SkippedComparisonFetch),
        },
        (Phase::AwaitPulls { repo }, Event::PullsFetched(res)) => match res {
            Ok(pulls) => {
                match find_matching_pull(&pulls, owner, opts.from.as_str(), opts.to.as_str()) {
                    Some(i) => {
                        let number = pulls[i].number;
                        let repo_name = repo.name.clone();
                        let mut notes: Vec<Note> = Vec::new();
                        notes.push(Note::ExistingPullFound);
                        Step {
                            next: Phase::AwaitFullPull { repo, number },
                            action: Some(Action::FetchPull { repo_name, number }),
                            notes,
                        }
                    },
                    None => {
                        if opts.create_pulls {
                            let repo_name = repo.name.clone();
                            let title = crate::client::pull_title(
                                opts.reference.as_str(),
                                opts.from.as_str(),
                                opts.to.as_str(),
                            );
                            Step {
                                next: Phase::AwaitCreatedPull { repo },
                                action: Some(Action::CreatePull { repo_name, title }),
                                notes: Vec::new(),
                            }
                        } else {
                            finish(RepoOutcome::Done { merged: false }, Note::NoPullResolved)
                        }
                    },
                }
            },
            Err(_) => finish(RepoOutcome::Skipped, Note::SkippedPullsFetch),
        },
        (Phase::AwaitFullPull { repo, .. }, Event::PullFetched(res)) => match res {
            Ok(pr) => merge_entry(opts, repo, pr),
            Err(_) => finish(RepoOutcome::Skipped, Note::SkippedPullFetch),
        },
        (Phase::AwaitCreatedPull { repo }, Event::PullCreated(res)) => match res {
            Ok(pr) => merge_entry(opts, repo, pr),
            Err(_) => finish(RepoOutcome::Done { merged: false }, Note::PullCreateFailed),
        },
        (Phase::AwaitMerge { repo, .. }, Event::MergeFinished(res)) => match res {
            Ok(ms) => {
                if ms.merged && opts.delete_branches {
                    let repo_name = repo.name.clone();
                    Step {
                        next: Phase::AwaitRefDelete { repo },
                        action: Some(Action::DeleteSourceRef { repo_name }),
                        notes: Vec::new(),
                    }
                } else if ms.merged {
                    Step {
                        next: Phase::Finished { outcome: RepoOutcome::Done { merged: true } },
                        action: None,
                        notes: Vec::new(),
                    }
                } else {
                    finish(RepoOutcome::Done { merged: false }, Note::MergeNotConfirmed)
                }
            },
            Err(_) => finish(RepoOutcome::Done { merged: false }, Note::MergeFailed),
        },
        (Phase::AwaitRefDelete { .. }, Event::RefDeleted(res)) => match res {
            Ok(_) => Step {
                next: Phase::Finished { outcome: RepoOutcome::Done { merged: true } },
                action: None,
                notes: Vec::new(),
            },
            Err(_) => finish(RepoOutcome::Done { merged: true }, Note::SourceDeleteFailed),
        },
        _ => unreached(),
    }
}

} // verus!
