use std::collections::HashMap;

use multigit::client::{reference_response, ref_path, RawBody};
use multigit::errors::{ApiError, GithubAPIResponseError, TransportErrorKind};
use multigit::json::JsonValue;
use multigit::models::{
    Branch, CommitsComparison, CompareStatus, DeleteReference, GithubGitPointer,
    GithubPullRequestState, PullRequest, PullRequestMergeStatus, Reference, ReferenceObject,
    ReferenceType, Repo,
};
use multigit::workflow::{step, Action, Event, Note, Phase, RepoOutcome, RunOptions, Step};

fn options(create_pulls: bool, merge: bool, create_branches: bool, delete_branches: bool)
    -> RunOptions {
    RunOptions {
        from: "feature".to_string(),
        to: "main".to_string(),
        reference: "acme/planning#12".to_string(),
        create_pulls,
        merge,
        create_branches,
        delete_branches,
    }
}

fn a_repo() -> Repo {
    Repo {
        name: "svc-a".to_string(),
        owner_login: "acme".to_string(),
        private: false,
        fork: false,
    }
}

fn a_branch(name: &str) -> Branch {
    Branch { name: name.to_string(), sha: "abc123".to_string(), protected: false }
}

fn a_pull(number: u64, head_label: &str, base_label: &str, mergeable: Option<bool>) -> PullRequest {
    PullRequest {
        number,
        state: GithubPullRequestState::Open,
        title: "PR for: acme/planning#12. feature into main".to_string(),
        head: GithubGitPointer {
            label: head_label.to_string(),
            reference: "feature".to_string(),
            sha: "abc111".to_string(),
        },
        base: GithubGitPointer {
            label: base_label.to_string(),
            reference: "main".to_string(),
            sha: "abc222".to_string(),
        },
        draft: false,
        merged: Some(false),
        mergeable,
    }
}

fn a_transport_error() -> ApiError {
    ApiError::Transport(GithubAPIResponseError {
        kind: TransportErrorKind::NotFound,
        message: "Not found".to_string(),
    })
}

fn outcome_of(phase: &Phase) -> Option<RepoOutcome> {
    match phase {
        Phase::Finished { outcome } => Some(*outcome),
        _ => None,
    }
}

#[test]
fn scenario_behind_no_pulls_creates_one_with_no_merge_call() {
    let opts = options(true, true, false, false);
    let owner = "acme";

    let s1 = step(&opts, owner, Phase::AwaitRepo, Event::RepoFetched(Ok(a_repo())));
    assert!(matches!(s1.action, Some(Action::FetchBranches { .. })));

    let branches = vec![a_branch("feature"), a_branch("main")];
    let s2 = step(&opts, owner, s1.next, Event::BranchesFetched(Ok(branches)));
    match &s2.action {
        // The comparison is issued source-first: the forge's answer then
        // describes the destination relative to the source.
        Some(Action::FetchComparison { repo_name, base, head }) => {
            assert_eq!(repo_name, "svc-a");
            assert_eq!(base, "feature");
            assert_eq!(head, "main");
        }
        _ => panic!("expected a comparison fetch"),
    }
    assert!(s2.notes.is_empty());

    let s3 = step(
        &opts,
        owner,
        s2.next,
        Event::ComparisonFetched(Ok(CommitsComparison { status: CompareStatus::Behind })),
    );
    assert!(matches!(s3.action, Some(Action::ListPulls { .. })));

    let s4 = step(&opts, owner, s3.next, Event::PullsFetched(Ok(vec![])));
    match &s4.action {
        Some(Action::CreatePull { repo_name, title }) => {
            assert_eq!(repo_name, "svc-a");
            assert_eq!(title, "PR for: acme/planning#12. feature into main");
        }
        other => panic!("expected a pull creation, got {:?}", other.is_some()),
    }

    let created = a_pull(21, "acme:feature", "acme:main", None);
    let s5 = step(&opts, owner, s4.next, Event::PullCreated(Ok(created)));
    assert!(s5.action.is_none());
    assert_eq!(s5.notes, vec![Note::MergeabilityUnknown]);
    assert_eq!(outcome_of(&s5.next), Some(RepoOutcome::Done { merged: false }));
}

#[test]
fn scenario_missing_destination_without_creation_aborts_before_any_comparison() {
    let opts = options(true, true, false, false);
    let owner = "acme";

    let s1 = step(&opts, owner, Phase::AwaitRepo, Event::RepoFetched(Ok(a_repo())));
    let branches = vec![a_branch("feature")];
    let s2 = step(&opts, owner, s1.next, Event::BranchesFetched(Ok(branches)));
    assert!(s2.action.is_none());
    assert_eq!(outcome_of(&s2.next), Some(RepoOutcome::AbortRun));
    assert!(s2.notes.contains(&Note::DestinationMissing));
}

#[test]
fn scenario_missing_destination_with_creation_creates_one_reference_and_stops() {
    let opts = options(true, true, true, false);
    let owner = "acme";

    let s1 = step(&opts, owner, Phase::AwaitRepo, Event::RepoFetched(Ok(a_repo())));
    let branches = vec![a_branch("feature")];
    let s2 = step(&opts, owner, s1.next, Event::BranchesFetched(Ok(branches)));
    assert!(matches!(s2.action, Some(Action::FetchSourceRef { .. })));

    let source_ref = Reference {
        reference: "refs/heads/feature".to_string(),
        object: ReferenceObject {
            reference_type: ReferenceType::Commit,
            sha: "abc777".to_string(),
        },
    };
    let s3 = step(&opts, owner, s2.next, Event::SourceRefFetched(Ok(source_ref)));
    match &s3.action {
        Some(Action::CreateRef { repo_name, ref_name, sha }) => {
            assert_eq!(repo_name, "svc-a");
            assert_eq!(ref_name, "refs/heads/main");
            assert_eq!(sha, "abc777");
        }
        _ => panic!("expected a reference creation"),
    }

    let s4 = step(&opts, owner, s3.next, Event::RefCreated(Ok(DeleteReference {})));
    assert!(s4.action.is_none());
    assert_eq!(s4.notes, vec![Note::BranchCreated]);
    assert_eq!(outcome_of(&s4.next), Some(RepoOutcome::Done { merged: false }));
}

#[test]
fn failed_branch_creation_aborts_the_run() {
    let opts = options(true, false, true, false);
    let owner = "acme";
    let repo = a_repo();
    let s = step(
        &opts,
        owner,
        Phase::AwaitRefCreate { repo },
        Event::RefCreated(Err(a_transport_error())),
    );
    assert_eq!(outcome_of(&s.next), Some(RepoOutcome::AbortRun));
    assert_eq!(s.notes, vec![Note::BranchCreateFailed]);
}

#[test]
fn clean_comparison_finishes_without_pull_handling() {
    let owner = "acme";
    for status in [CompareStatus::Ahead, CompareStatus::Identical] {
        let opts = options(true, true, false, false);
        let s = step(
            &opts,
            owner,
            Phase::AwaitComparison { repo: a_repo() },
            Event::ComparisonFetched(Ok(CommitsComparison { status })),
        );
        assert!(s.action.is_none());
        assert_eq!(s.notes, vec![Note::NothingToMerge]);
        assert_eq!(outcome_of(&s.next), Some(RepoOutcome::Done { merged: false }));
    }
}

#[test]
fn second_run_resolves_the_existing_pull_instead_of_creating() {
    let opts = options(true, false, false, false);
    let owner = "acme";

    // The remote is unchanged between two runs: one open pull request with
    // the wanted labels.  Each run must fetch it rather than create another.
    let remote_pulls =
        || vec![a_pull(7, "acme:other", "acme:main", None), a_pull(9, "acme:feature", "acme:main", None)];

    let mut created: usize = 0;
    for _run in 0..2 {
        let s = step(
            &opts,
            owner,
            Phase::AwaitPulls { repo: a_repo() },
            Event::PullsFetched(Ok(remote_pulls())),
        );
        match &s.action {
            Some(Action::FetchPull { number, .. }) => assert_eq!(*number, 9),
            Some(Action::CreatePull { .. }) => created += 1,
            _ => panic!("expected pull resolution"),
        }
        assert_eq!(s.notes, vec![Note::ExistingPullFound]);
        assert!(matches!(s.next, Phase::AwaitFullPull { number: 9, .. }));
    }
    assert_eq!(created, 0);
}

#[test]
fn without_creation_no_match_resolves_to_no_pull() {
    let opts = options(false, false, false, false);
    let owner = "acme";
    let s = step(
        &opts,
        owner,
        Phase::AwaitPulls { repo: a_repo() },
        Event::PullsFetched(Ok(vec![a_pull(7, "acme:other", "acme:main", None)])),
    );
    assert!(s.action.is_none());
    assert_eq!(s.notes, vec![Note::NoPullResolved]);
    assert_eq!(outcome_of(&s.next), Some(RepoOutcome::Done { merged: false }));
}

#[test]
fn merge_is_invoked_only_when_cleanly_mergeable() {
    let opts = options(true, true, false, false);
    let owner = "acme";

    let clean = a_pull(9, "acme:feature", "acme:main", Some(true));
    let s = step(
        &opts,
        owner,
        Phase::AwaitFullPull { repo: a_repo(), number: 9 },
        Event::PullFetched(Ok(clean)),
    );
    match &s.action {
        Some(Action::MergePull { number, .. }) => assert_eq!(*number, 9),
        _ => panic!("expected a merge call"),
    }

    let conflicting = a_pull(9, "acme:feature", "acme:main", Some(false));
    let s2 = step(
        &opts,
        owner,
        Phase::AwaitFullPull { repo: a_repo(), number: 9 },
        Event::PullFetched(Ok(conflicting)),
    );
    assert!(s2.action.is_none());
    assert_eq!(s2.notes, vec![Note::MergeConflict]);

    let unknown = a_pull(9, "acme:feature", "acme:main", None);
    let s3 = step(
        &opts,
        owner,
        Phase::AwaitFullPull { repo: a_repo(), number: 9 },
        Event::PullFetched(Ok(unknown)),
    );
    assert!(s3.action.is_none());
    assert_eq!(s3.notes, vec![Note::MergeabilityUnknown]);
}

#[test]
fn no_merge_flag_leaves_a_mergeable_pull_alone() {
    let opts = options(true, false, false, false);
    let owner = "acme";
    let clean = a_pull(9, "acme:feature", "acme:main", Some(true));
    let s = step(
        &opts,
        owner,
        Phase::AwaitFullPull { repo: a_repo(), number: 9 },
        Event::PullFetched(Ok(clean)),
    );
    assert!(s.action.is_none());
    assert_eq!(outcome_of(&s.next), Some(RepoOutcome::Done { merged: false }));
}

#[test]
fn deletion_is_attempted_only_after_a_confirmed_merge() {
    let owner = "acme";

    let confirmed = PullRequestMergeStatus {
        sha: "abc321".to_string(),
        merged: true,
        message: "merged".to_string(),
    };
    let opts = options(true, true, false, true);
    let s = step(
        &opts,
        owner,
        Phase::AwaitMerge { repo: a_repo(), pr: a_pull(9, "acme:feature", "acme:main", Some(true)) },
        Event::MergeFinished(Ok(confirmed)),
    );
    assert!(matches!(s.action, Some(Action::DeleteSourceRef { .. })));

    let confirmed_again = PullRequestMergeStatus {
        sha: "abc321".to_string(),
        merged: true,
        message: "merged".to_string(),
    };
    let no_delete = options(true, true, false, false);
    let s2 = step(
        &no_delete,
        owner,
        Phase::AwaitMerge { repo: a_repo(), pr: a_pull(9, "acme:feature", "acme:main", Some(true)) },
        Event::MergeFinished(Ok(confirmed_again)),
    );
    assert!(s2.action.is_none());
    assert_eq!(outcome_of(&s2.next), Some(RepoOutcome::Done { merged: true }));

    let unconfirmed = PullRequestMergeStatus {
        sha: "abc321".to_string(),
        merged: false,
        message: "not merged".to_string(),
    };
    let s3 = step(
        &opts,
        owner,
        Phase::AwaitMerge { repo: a_repo(), pr: a_pull(9, "acme:feature", "acme:main", Some(true)) },
        Event::MergeFinished(Ok(unconfirmed)),
    );
    assert!(s3.action.is_none());
    assert_eq!(s3.notes, vec![Note::MergeNotConfirmed]);
}

#[test]
fn failed_deletion_keeps_the_merge_outcome() {
    let opts = options(true, true, false, true);
    let owner = "acme";
    let s = step(
        &opts,
        owner,
        Phase::AwaitRefDelete { repo: a_repo() },
        Event::RefDeleted(Err(a_transport_error())),
    );
    assert_eq!(outcome_of(&s.next), Some(RepoOutcome::Done { merged: true }));
    assert_eq!(s.notes, vec![Note::SourceDeleteFailed]);
}

#[test]
fn read_failures_skip_the_repository() {
    let opts = options(true, true, true, false);
    let owner = "acme";
    let cases: Vec<Step> = vec![
        step(&opts, owner, Phase::AwaitRepo, Event::RepoFetched(Err(a_transport_error()))),
        step(
            &opts,
            owner,
            Phase::AwaitBranches { repo: a_repo() },
            Event::BranchesFetched(Err(a_transport_error())),
        ),
        step(
            &opts,
            owner,
            Phase::AwaitSourceRef { repo: a_repo() },
            Event::SourceRefFetched(Err(a_transport_error())),
        ),
        step(
            &opts,
            owner,
            Phase::AwaitComparison { repo: a_repo() },
            Event::ComparisonFetched(Err(a_transport_error())),
        ),
        step(
            &opts,
            owner,
            Phase::AwaitPulls { repo: a_repo() },
            Event::PullsFetched(Err(a_transport_error())),
        ),
        step(
            &opts,
            owner,
            Phase::AwaitFullPull { repo: a_repo(), number: 9 },
            Event::PullFetched(Err(a_transport_error())),
        ),
    ];
    for s in cases {
        assert!(s.action.is_none());
        assert_eq!(outcome_of(&s.next), Some(RepoOutcome::Skipped));
    }
}

#[test]
fn missing_source_branch_is_noted_but_not_fatal() {
    let opts = options(true, false, false, false);
    let owner = "acme";
    let branches = vec![a_branch("main")];
    let s = step(
        &opts,
        owner,
        Phase::AwaitBranches { repo: a_repo() },
        Event::BranchesFetched(Ok(branches)),
    );
    assert!(matches!(s.action, Some(Action::FetchComparison { .. })));
    assert_eq!(s.notes, vec![Note::SourceBranchMissing]);
}

#[test]
fn created_reference_reads_back_with_the_same_sha_and_kind() {
    // A stand-in forge: every reference it stores points at a commit, and a
    // read renders the body the real forge would answer with.
    let mut refs: HashMap<String, String> = HashMap::new();

    let wanted = ref_path("main");
    refs.insert(wanted.clone(), "abc777".to_string());

    let body = JsonValue::Obj(vec![
        ("ref".to_string(), JsonValue::Str(wanted.clone())),
        (
            "object".to_string(),
            JsonValue::Obj(vec![
                ("type".to_string(), JsonValue::Str("commit".to_string())),
                ("sha".to_string(), JsonValue::Str(refs[&wanted].clone())),
            ]),
        ),
    ]);
    let read = reference_response(Ok(RawBody { text: "{}".to_string(), json: Some(body) }))
        .unwrap();
    assert_eq!(read.reference, "refs/heads/main");
    assert_eq!(read.object.sha, "abc777");
    assert_eq!(read.object.reference_type, ReferenceType::Commit);
}
