//! Laws of the workflow.
//!
//! These proof functions state, over whole runs of the state machine, the
//! guarantees the workflow gives: what a clean comparison suppresses, when
//! pull-request resolution happens, when a merge may be attempted, and when
//! the source branch may be deleted.

use vstd::prelude::*;

use crate::json::{field_of, str_field, JsonValue};
use crate::models::{PullRequest, Reference, Repo};
use crate::workflow::{
    expects, labels_match, Action, Event, Note, Phase, RepoOutcome, RunOptions, Step,
    step_matches,
};

verus! {

/// One observed transition of the machine: the phase it was in, the event
/// it consumed, and the step it returned.
pub struct Transition {
    pub phase: Phase,
    pub event: Event,
    pub step: Step,
}

/// A faithful record of one repository's run: it starts at the first phase,
/// every step is the machine's answer to the phase's own event, and each
/// phase is the one the previous step moved to.
pub open spec fn valid_run(opts: RunOptions, owner: Seq<char>, tr: Seq<Transition>) -> bool {
    &&& (tr.len() > 0 ==> tr[0].phase is AwaitRepo)
    &&& (forall|i: int| 0 <= i < tr.len() ==> expects(#[trigger] tr[i].phase, tr[i].event))
    &&& (forall|i: int|
        0 <= i < tr.len() ==> step_matches(opts, owner, #[trigger] tr[i].phase, tr[i].event, tr[i].step))
    &&& (forall|i: int| 0 <= i < tr.len() - 1 ==> tr[i + 1].phase == (#[trigger] tr[i].step).next)
}

/// Phases in the order the machine can visit them.
pub open spec fn phase_rank(p: Phase) -> int {
    match p {
        Phase::AwaitRepo => 0,
        Phase::AwaitBranches { .. } => 1,
        Phase::AwaitSourceRef { .. } => 2,
        Phase::AwaitRefCreate { .. } => 3,
        Phase::AwaitComparison { .. } => 4,
        Phase::AwaitPulls { .. } => 5,
        Phase::AwaitFullPull { .. } => 6,
        Phase::AwaitCreatedPull { .. } => 6,
        Phase::AwaitMerge { .. } => 7,
        Phase::AwaitRefDelete { .. } => 8,
        Phase::Finished { .. } => 9,
    }
}

/// Every step moves strictly forward: the machine never revisits a phase.
pub proof fn lemma_rank_increases(
    opts: RunOptions,
    owner: Seq<char>,
    phase: Phase,
    event: Event,
    s: Step,
)
    requires
        expects(phase, event),
        step_matches(opts, owner, phase, event, s),
    ensures
        phase_rank(s.next) > phase_rank(phase),
{
}

/// Along a run, ranks grow strictly with time.
pub proof fn lemma_ranks_monotonic(
    opts: RunOptions,
    owner: Seq<char>,
    tr: Seq<Transition>,
    i: int,
    j: int,
)
    requires
        valid_run(opts, owner, tr),
        0 <= i < j < tr.len(),
    ensures
        phase_rank(tr[i].phase) < phase_rank(tr[j].phase),
    decreases j - i,
{
    lemma_rank_increases(opts, owner, tr[j - 1].phase, tr[j - 1].event, tr[j - 1].step);
    if i < j - 1 {
        lemma_ranks_monotonic(opts, owner, tr, i, j - 1);
    }
}

/// The calls that touch pull requests: listing, fetching one, creating one,
/// merging one.
pub open spec fn is_pull_action(a: Option<Action>) -> bool {
    match a {
        Some(Action::ListPulls { .. }) => true,
        Some(Action::FetchPull { .. }) => true,
        Some(Action::CreatePull { .. }) => true,
        Some(Action::MergePull { .. }) => true,
        _ => false,
    }
}

/// A pull request call is only ever issued by the diverging-comparison step
/// or by a phase of the pull-request stage.
pub proof fn lemma_pull_action_source(
    opts: RunOptions,
    owner: Seq<char>,
    phase: Phase,
    event: Event,
    s: Step,
)
    requires
        expects(phase, event),
        step_matches(opts, owner, phase, event, s),
        is_pull_action(s.action),
    ensures
        phase_rank(phase) >= 4,
        phase_rank(phase) <= 6,
        phase is AwaitComparison ==> (s.action matches Some(a) && a is ListPulls && (event matches
        Event::ComparisonFetched(res) && res matches Ok(c) && (c.status is Behind
            || c.status is Diverged))),
{
}

/// A phase of the pull-request or merge stage is only ever reached through
/// a comparison step that reported the destination behind or diverged.
pub proof fn lemma_pull_stage_needs_diverging_comparison(
    opts: RunOptions,
    owner: Seq<char>,
    tr: Seq<Transition>,
    j: int,
) -> (k: int)
    requires
        valid_run(opts, owner, tr),
        0 <= j < tr.len(),
        5 <= phase_rank(tr[j].phase) <= 8,
    ensures
        0 <= k < j,
        tr[k].phase is AwaitComparison,
        tr[k].event matches Event::ComparisonFetched(res) && res matches Ok(c) && (c.status
            is Behind || c.status is Diverged),
        tr[k].step.next == tr[j].phase || 5 <= phase_rank(tr[k].step.next) <= 8,
    decreases j,
{
    assert(j > 0) by {
        if j == 0 {
            assert(tr[0].phase is AwaitRepo);
        }
    }
    assert(tr[j].phase == tr[j - 1].step.next);
    if tr[j].phase is AwaitPulls {
        assert(step_matches(opts, owner, tr[j - 1].phase, tr[j - 1].event, tr[j - 1].step));
        j - 1
    } else {
        assert(5 <= phase_rank(tr[j - 1].phase) <= 8) by {
            assert(step_matches(opts, owner, tr[j - 1].phase, tr[j - 1].event, tr[j - 1].step));
        }
        lemma_pull_stage_needs_diverging_comparison(opts, owner, tr, j - 1)
    }
}

/// When a comparison reports the destination ahead of or identical to the
/// source, the run issues no pull request listing, fetch, creation or merge
/// call at all.
pub proof fn lemma_clean_comparison_no_pull_calls(
    opts: RunOptions,
    owner: Seq<char>,
    tr: Seq<Transition>,
    i: int,
    j: int,
)
    requires
        valid_run(opts, owner, tr),
        0 <= i < tr.len(),
        0 <= j < tr.len(),
        tr[i].phase is AwaitComparison,
        tr[i].event matches Event::ComparisonFetched(res) && res matches Ok(c) && (c.status
            is Ahead || c.status is Identical),
    ensures
        !is_pull_action(tr[j].step.action),
{
    if is_pull_action(tr[j].step.action) {
        lemma_pull_action_source(opts, owner, tr[j].phase, tr[j].event, tr[j].step);
        if tr[j].phase is AwaitComparison {
            if i < j {
                lemma_ranks_monotonic(opts, owner, tr, i, j);
            } else if j < i {
                lemma_ranks_monotonic(opts, owner, tr, j, i);
            }
            assert(i == j);
            assert(false);
        } else {
            let k = lemma_pull_stage_needs_diverging_comparison(opts, owner, tr, j);
            if i < k {
                lemma_ranks_monotonic(opts, owner, tr, i, k);
            } else if k < i {
                lemma_ranks_monotonic(opts, owner, tr, k, i);
            }
            assert(i == k);
            assert(false);
        }
    }
}

/// When a comparison reports the destination behind or diverged, pull
/// request resolution is attempted exactly once: that step issues the one
/// listing call of the whole run.
pub proof fn lemma_diverging_comparison_resolves_once(
    opts: RunOptions,
    owner: Seq<char>,
    tr: Seq<Transition>,
    i: int,
    j: int,
)
    requires
        valid_run(opts, owner, tr),
        0 <= i < tr.len(),
        0 <= j < tr.len(),
        j != i,
        tr[i].phase is AwaitComparison,
        tr[i].event matches Event::ComparisonFetched(res) && res matches Ok(c) && (c.status
            is Behind || c.status is Diverged),
    ensures
        tr[i].step.action matches Some(a) && a is ListPulls,
        !(tr[j].step.action matches Some(a) && a is ListPulls),
{
    assert(step_matches(opts, owner, tr[i].phase, tr[i].event, tr[i].step));
    if tr[j].step.action matches Some(a) && a is ListPulls {
        lemma_pull_action_source(opts, owner, tr[j].phase, tr[j].event, tr[j].step);
        assert(tr[j].phase is AwaitComparison);
        if i < j {
            lemma_ranks_monotonic(opts, owner, tr, i, j);
        } else {
            lemma_ranks_monotonic(opts, owner, tr, j, i);
        }
        assert(false);
    }
}

/// Resolving against an unchanged remote that already holds an open pull
/// request with the wanted head and base labels never creates a second one:
/// the step re-fetches the pull request it found.
pub proof fn lemma_existing_pull_is_resolved(
    opts: RunOptions,
    owner: Seq<char>,
    phase: Phase,
    event: Event,
    s: Step,
    i: int,
)
    requires
        expects(phase, event),
        step_matches(opts, owner, phase, event, s),
        phase is AwaitPulls,
        event matches Event::PullsFetched(res) && res matches Ok(pulls) && 0 <= i < pulls@.len()
            && labels_match(pulls@[i], owner, opts.from@, opts.to@),
    ensures
        s.action matches Some(a) && a is FetchPull,
        !(s.action matches Some(a) && a is CreatePull),
        s.notes@ == seq![Note::ExistingPullFound],
{
}

/// A pull request creation is only ever issued by the step that consumed
/// the pull request listing.
pub proof fn lemma_create_pull_source(
    opts: RunOptions,
    owner: Seq<char>,
    phase: Phase,
    event: Event,
    s: Step,
)
    requires
        expects(phase, event),
        step_matches(opts, owner, phase, event, s),
        s.action matches Some(a) && a is CreatePull,
    ensures
        phase is AwaitPulls,
{
}

/// Idempotence: in a run whose pull request listing already held a pull
/// request with the wanted head and base labels — as on a second run
/// against an unchanged remote — no creation call is issued anywhere; the
/// existing pull request is resolved instead.
pub proof fn lemma_existing_pull_never_recreated(
    opts: RunOptions,
    owner: Seq<char>,
    tr: Seq<Transition>,
    i: int,
    j: int,
)
    requires
        valid_run(opts, owner, tr),
        0 <= i < tr.len(),
        0 <= j < tr.len(),
        tr[i].event matches Event::PullsFetched(res) && res matches Ok(pulls) && (exists|n: int|
            0 <= n < pulls@.len() && labels_match(pulls@[n], owner, opts.from@, opts.to@)),
    ensures
        !(tr[j].step.action matches Some(a) && a is CreatePull),
{
    assert(expects(tr[i].phase, tr[i].event));
    assert(tr[i].phase is AwaitPulls);
    if tr[j].step.action matches Some(a) && a is CreatePull {
        lemma_create_pull_source(opts, owner, tr[j].phase, tr[j].event, tr[j].step);
        if i < j {
            lemma_ranks_monotonic(opts, owner, tr, i, j);
        } else if j < i {
            lemma_ranks_monotonic(opts, owner, tr, j, i);
        }
        assert(i == j);
        assert(step_matches(opts, owner, tr[i].phase, tr[i].event, tr[i].step));
        assert(false);
    }
}

/// The pull request an event put in the machine's hand, if any.
pub open spec fn resolved_pull(event: Event) -> Option<PullRequest> {
    match event {
        Event::PullFetched(Ok(pr)) => Some(pr),
        Event::PullCreated(Ok(pr)) => Some(pr),
        _ => None,
    }
}

/// Merge gating: a merge call is issued only when merging was requested and
/// the resolved pull request is reported cleanly mergeable; a reported
/// conflict logs a conflict note and an absent mergeability logs a
/// retry-later note, with no merge call either way.
pub proof fn lemma_merge_gating(
    opts: RunOptions,
    owner: Seq<char>,
    phase: Phase,
    event: Event,
    s: Step,
)
    requires
        expects(phase, event),
        step_matches(opts, owner, phase, event, s),
    ensures
        (s.action matches Some(a) && a is MergePull) ==> (opts.merge && (resolved_pull(event)
            matches Some(pr) && pr.mergeable == Some(true))),
        opts.merge && (resolved_pull(event) matches Some(pr) && pr.mergeable == Some(false)) ==> (
        s.action is None && s.notes@ == seq![Note::MergeConflict]),
        opts.merge && (resolved_pull(event) matches Some(pr) && pr.mergeable is None) ==> (
        s.action is None && s.notes@ == seq![Note::MergeabilityUnknown]),
{
}

/// A merge call is only ever issued by the step that put the resolved pull
/// request in the machine's hand.
pub proof fn lemma_merge_action_source(
    opts: RunOptions,
    owner: Seq<char>,
    phase: Phase,
    event: Event,
    s: Step,
)
    requires
        expects(phase, event),
        step_matches(opts, owner, phase, event, s),
        s.action matches Some(a) && a is MergePull,
    ensures
        phase is AwaitFullPull || phase is AwaitCreatedPull,
{
}

/// Merge is attempted at most once per run: the two phases that can issue
/// the call are never both visited, and neither is visited twice.
pub proof fn lemma_merge_attempted_at_most_once(
    opts: RunOptions,
    owner: Seq<char>,
    tr: Seq<Transition>,
    i: int,
    j: int,
)
    requires
        valid_run(opts, owner, tr),
        0 <= i < tr.len(),
        0 <= j < tr.len(),
        j != i,
        tr[i].step.action matches Some(a) && a is MergePull,
    ensures
        !(tr[j].step.action matches Some(a) && a is MergePull),
{
    if tr[j].step.action matches Some(a) && a is MergePull {
        lemma_merge_action_source(opts, owner, tr[i].phase, tr[i].event, tr[i].step);
        lemma_merge_action_source(opts, owner, tr[j].phase, tr[j].event, tr[j].step);
        if i < j {
            lemma_ranks_monotonic(opts, owner, tr, i, j);
        } else {
            lemma_ranks_monotonic(opts, owner, tr, j, i);
        }
        assert(false);
    }
}

/// Post-merge cleanup gating: the source branch is deleted only when the
/// forge confirmed the merge and deletion was requested, and a failed
/// deletion leaves the recorded merge outcome unchanged.
pub proof fn lemma_cleanup_gating(
    opts: RunOptions,
    owner: Seq<char>,
    phase: Phase,
    event: Event,
    s: Step,
)
    requires
        expects(phase, event),
        step_matches(opts, owner, phase, event, s),
    ensures
        (s.action matches Some(a) && a is DeleteSourceRef) ==> (opts.delete_branches && (event
            matches Event::MergeFinished(res) && res matches Ok(ms) && ms.merged)),
        phase is AwaitRefDelete ==> s.next == (Phase::Finished {
            outcome: RepoOutcome::Done { merged: true },
        }),
{
}

/// Round trip, client side: to create the destination branch the workflow
/// asks for a reference at exactly the source reference's SHA, and a
/// reference body read back carrying that SHA and the commit kind decodes
/// to exactly that SHA and kind — nothing is altered on the way out or on
/// the way back in.  That the forge stores and serves what it was asked for
/// is the forge's own guarantee, exercised in a test against a stand-in.
pub proof fn lemma_reference_round_trip(
    opts: RunOptions,
    owner: Seq<char>,
    repo: Repo,
    source: Reference,
    s: Step,
    v: JsonValue,
    read: Reference,
)
    requires
        step_matches(
            opts,
            owner,
            Phase::AwaitSourceRef { repo },
            Event::SourceRefFetched(Ok(source)),
            s,
        ),
        s.action matches Some(a) && a matches Action::CreateRef { sha: created, .. } && (
        match field_of(v, "object"@) {
            Some(o) => str_field(o, "sha"@) == Some(created@) && str_field(o, "type"@) == Some(
                "commit"@,
            ),
            None => false,
        }),
        crate::decode::reference_matches(v, read),
    ensures
        read.object.sha@ == source.object.sha@,
        read.object.reference_type is Commit,
{
}

/// A step issues a call exactly when it has not finished the repository.
pub proof fn lemma_action_iff_not_finished(
    opts: RunOptions,
    owner: Seq<char>,
    phase: Phase,
    event: Event,
    s: Step,
)
    requires
        expects(phase, event),
        step_matches(opts, owner, phase, event, s),
    ensures
        s.action is None <==> s.next is Finished,
{
}

} // verus!
