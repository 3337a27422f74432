use multigit::client::{
    accept_value, api_url, auth_header_value, ep_branches, ep_compare, ep_delete_ref,
    ep_list_repos, ep_merge, ep_org, ep_pull, ep_pulls, ep_ref_heads, ep_refs, ep_repo,
    join_path, label_of, pull_title, ref_path, user_agent_value,
};
use multigit::decimal::u64_to_string;
use multigit::errors::{
    ApiError, GithubAPIError, GithubAPIResponseDeserializeError, GithubAPIResponseError,
    TransportErrorKind,
};
use multigit::listing::{org_or_user_response, org_overview, repo_responses, Org, OrgResponse,
    OrgType, Repo, RepoResponse};
use multigit::models;

#[test]
fn endpoint_paths_follow_the_forge_layout() {
    assert_eq!(ep_repo("acme", "svc-a"), "repos/acme/svc-a");
    assert_eq!(ep_branches("acme", "svc-a"), "repos/acme/svc-a/branches");
    assert_eq!(
        ep_compare("acme", "svc-a", "main", "feature"),
        "repos/acme/svc-a/compare/main...feature"
    );
    assert_eq!(ep_pulls("acme", "svc-a"), "repos/acme/svc-a/pulls");
    assert_eq!(ep_pull("acme", "svc-a", 17), "repos/acme/svc-a/pulls/17");
    assert_eq!(ep_merge("acme", "svc-a", 17), "repos/acme/svc-a/pulls/17/merge");
    assert_eq!(ep_refs("acme", "svc-a"), "repos/acme/svc-a/git/refs");
    assert_eq!(
        ep_ref_heads("acme", "svc-a", "feature"),
        "repos/acme/svc-a/git/refs/heads/feature"
    );
    assert_eq!(
        ep_delete_ref("acme", "svc-a", "feature"),
        "repos/acme/svc-a/git/refs/heads/feature"
    );
    assert_eq!(ep_org("acme"), "orgs/acme");
    assert_eq!(ep_list_repos("acme", false), "orgs/acme/repos");
    assert_eq!(ep_list_repos("dev1", true), "users/dev1/repos");
}

#[test]
fn api_url_prefixes_the_base() {
    assert_eq!(api_url("repos/acme/svc-a"), "https://api.github.com/repos/acme/svc-a");
}

#[test]
fn request_headers_carry_token_agent_and_media_type() {
    assert_eq!(auth_header_value("sample-value"), "token sample-value");
    assert_eq!(user_agent_value(), "MultiGitRs");
    assert_eq!(accept_value(), "application/vnd.github+json");
}

#[test]
fn pull_title_names_reference_and_branches() {
    assert_eq!(
        pull_title("acme/planning#12", "feature", "main"),
        "PR for: acme/planning#12. feature into main"
    );
}

#[test]
fn labels_pair_owner_and_branch() {
    assert_eq!(label_of("acme", "feature"), "acme:feature");
    assert_eq!(ref_path("main"), "refs/heads/main");
}

#[test]
fn decimal_rendering_matches_expected_digits() {
    assert_eq!(u64_to_string(0), "0");
    assert_eq!(u64_to_string(7), "7");
    assert_eq!(u64_to_string(42), "42");
    assert_eq!(u64_to_string(1200), "1200");
    assert_eq!(u64_to_string(u64::MAX), "18446744073709551615");
}

#[test]
fn field_paths_join_with_dots() {
    assert_eq!(join_path(&vec![]), "");
    assert_eq!(join_path(&vec!["owner".to_string()]), "owner");
    assert_eq!(
        join_path(&vec!["2".to_string(), "commit".to_string(), "sha".to_string()]),
        "2.commit.sha"
    );
}

#[test]
fn transport_error_reports_message_and_no_extra() {
    let e = GithubAPIResponseError {
        kind: TransportErrorKind::NotFound,
        message: "Resource Not found".to_string(),
    };
    assert_eq!(e.error_message(), "Resource Not found");
    assert_eq!(e.extra_info(), None);
}

#[test]
fn deserialize_error_reports_message_and_body() {
    let e = GithubAPIResponseDeserializeError {
        parse_error: "Unable to get repo: name".to_string(),
        original_response: Some("{\"name\":1}".to_string()),
    };
    assert_eq!(e.error_message(), "Unable to get repo: name");
    assert_eq!(e.extra_info(), Some("{\"name\":1}".to_string()));
    let wrapped = ApiError::Deserialize(e);
    assert_eq!(wrapped.error_message(), "Unable to get repo: name");
}

#[test]
fn org_response_of_keeps_fields() {
    let row = OrgResponse::of(Org { login: "acme".to_string(), org_type: OrgType::Organization });
    assert_eq!(row.login, "acme");
    assert_eq!(row.org_type, OrgType::Organization);
}

#[test]
fn repo_response_of_keeps_name() {
    let row = RepoResponse::of(Repo { name: "svc-a".to_string() });
    assert_eq!(row.name, "svc-a");
}

#[test]
fn org_overview_puts_the_user_first() {
    let orgs = vec![
        models::Org { login: "acme".to_string(), name: None, description: None },
        models::Org { login: "umbrella".to_string(), name: None, description: None },
    ];
    let me = Some(models::User { login: "dev1".to_string(), site_admin: false });
    let rows = org_overview(&orgs, me);
    assert_eq!(rows.len(), 3);
    assert_eq!(rows[0].login, "dev1");
    assert_eq!(rows[0].org_type, OrgType::User);
    assert_eq!(rows[1].login, "acme");
    assert_eq!(rows[1].org_type, OrgType::Organization);
    assert_eq!(rows[2].login, "umbrella");
}

#[test]
fn org_overview_without_user_lists_orgs_only() {
    let orgs = vec![models::Org { login: "acme".to_string(), name: None, description: None }];
    let rows = org_overview(&orgs, None);
    assert_eq!(rows.len(), 1);
    assert_eq!(rows[0].login, "acme");
    assert_eq!(rows[0].org_type, OrgType::Organization);
}

#[test]
fn repo_rows_keep_names_in_order() {
    let repos = vec![
        models::Repo {
            name: "svc-a".to_string(),
            owner_login: "acme".to_string(),
            private: false,
            fork: false,
        },
        models::Repo {
            name: "svc-b".to_string(),
            owner_login: "acme".to_string(),
            private: true,
            fork: false,
        },
    ];
    let rows = repo_responses(&repos);
    assert_eq!(rows.len(), 2);
    assert_eq!(rows[0].name, "svc-a");
    assert_eq!(rows[1].name, "svc-b");
}

#[test]
fn org_lookup_falls_back_to_the_user() {
    let found = org_or_user_response(
        Some(models::Org { login: "acme".to_string(), name: None, description: None }),
        None,
    );
    assert_eq!(found.unwrap().org_type, OrgType::Organization);

    let fallback = org_or_user_response(
        None,
        Some(models::User { login: "dev1".to_string(), site_admin: false }),
    );
    let row = fallback.unwrap();
    assert_eq!(row.login, "dev1");
    assert_eq!(row.org_type, OrgType::User);

    assert!(org_or_user_response(None, None).is_none());
}
