use multigit::client::{
    branches_response, comparison_response, create_reference_response, delete_reference_response,
    merge_response, pull_response, repo_response, RawBody,
};
use multigit::decode::{
    decode_branch, decode_branches, decode_comparison, decode_org, decode_pull, decode_reference,
    decode_repo, decode_user,
};
use multigit::errors::{ApiError, GithubAPIError, TransportErrorKind};
use multigit::json::JsonValue;
use multigit::models::{CompareStatus, GithubPullRequestState, ReferenceType};

fn s(x: &str) -> JsonValue {
    JsonValue::Str(x.to_string())
}

fn obj(entries: Vec<(&str, JsonValue)>) -> JsonValue {
    JsonValue::Obj(entries.into_iter().map(|(k, v)| (k.to_string(), v)).collect())
}

fn repo_body(name: &str, owner: &str) -> JsonValue {
    obj(vec![
        ("id", JsonValue::UInt(1)),
        ("name", s(name)),
        ("owner", obj(vec![("login", s(owner))])),
        ("private", JsonValue::Bool(false)),
        ("fork", JsonValue::Bool(false)),
    ])
}

fn pull_body(number: u64, head: &str, base: &str, mergeable: JsonValue) -> JsonValue {
    obj(vec![
        ("number", JsonValue::UInt(number)),
        ("state", s("open")),
        ("title", s("PR for: t. a into b")),
        (
            "head",
            obj(vec![("label", s(head)), ("ref", s("feature")), ("sha", s("abc111"))]),
        ),
        (
            "base",
            obj(vec![("label", s(base)), ("ref", s("main")), ("sha", s("abc222"))]),
        ),
        ("draft", JsonValue::Bool(false)),
        ("merged", JsonValue::Bool(false)),
        ("mergeable", mergeable),
    ])
}

#[test]
fn repo_decodes_all_fields() {
    let v = repo_body("svc-a", "acme");
    let repo = decode_repo(&v).unwrap();
    assert_eq!(repo.name, "svc-a");
    assert_eq!(repo.owner_login, "acme");
    assert!(!repo.private);
    assert!(!repo.fork);
}

#[test]
fn repo_missing_owner_login_reports_nested_path() {
    let v = obj(vec![
        ("name", s("svc-a")),
        ("owner", obj(vec![("id", JsonValue::UInt(3))])),
        ("private", JsonValue::Bool(true)),
        ("fork", JsonValue::Bool(false)),
    ]);
    let e = decode_repo(&v).unwrap_err();
    assert_eq!(e.path, vec!["owner".to_string(), "login".to_string()]);
}

#[test]
fn repo_wrong_type_reports_first_field() {
    let v = obj(vec![
        ("name", JsonValue::UInt(5)),
        ("owner", obj(vec![("login", s("acme"))])),
        ("private", JsonValue::Bool(true)),
        ("fork", JsonValue::Bool(false)),
    ]);
    let e = decode_repo(&v).unwrap_err();
    assert_eq!(e.path, vec!["name".to_string()]);
}

#[test]
fn branch_decodes_name_sha_protection() {
    let v = obj(vec![
        ("name", s("main")),
        ("commit", obj(vec![("sha", s("abc333"))])),
        ("protected", JsonValue::Bool(true)),
    ]);
    let b = decode_branch(&v).unwrap();
    assert_eq!(b.name, "main");
    assert_eq!(b.sha, "abc333");
    assert!(b.protected);
}

#[test]
fn branch_list_reports_index_of_bad_element() {
    let good = obj(vec![
        ("name", s("main")),
        ("commit", obj(vec![("sha", s("abc444"))])),
        ("protected", JsonValue::Bool(false)),
    ]);
    let also_good = obj(vec![
        ("name", s("dev")),
        ("commit", obj(vec![("sha", s("abc555"))])),
        ("protected", JsonValue::Bool(false)),
    ]);
    let bad = obj(vec![("commit", obj(vec![("sha", s("abc666"))]))]);
    let v = JsonValue::Arr(vec![good, also_good, bad]);
    let e = decode_branches(&v).unwrap_err();
    assert_eq!(e.path, vec!["2".to_string(), "name".to_string()]);
}

#[test]
fn comparison_decodes_each_status() {
    for (text, expected) in [
        ("ahead", CompareStatus::Ahead),
        ("behind", CompareStatus::Behind),
        ("diverged", CompareStatus::Diverged),
        ("identical", CompareStatus::Identical),
    ] {
        let v = obj(vec![("status", s(text))]);
        assert_eq!(decode_comparison(&v).unwrap().status, expected);
    }
}

#[test]
fn comparison_unknown_status_is_rejected() {
    let v = obj(vec![("status", s("sideways"))]);
    let e = decode_comparison(&v).unwrap_err();
    assert_eq!(e.path, vec!["status".to_string()]);
}

#[test]
fn pull_decodes_tristate_mergeable() {
    let with_true = decode_pull(&pull_body(7, "acme:feature", "acme:main", JsonValue::Bool(true)))
        .unwrap();
    assert_eq!(with_true.mergeable, Some(true));
    assert_eq!(with_true.number, 7);
    assert_eq!(with_true.state, GithubPullRequestState::Open);
    assert_eq!(with_true.head.label, "acme:feature");
    assert_eq!(with_true.base.label, "acme:main");

    let with_null = decode_pull(&pull_body(8, "a:b", "a:c", JsonValue::Null)).unwrap();
    assert_eq!(with_null.mergeable, None);

    let mut entries = pull_body(9, "a:b", "a:c", JsonValue::Null);
    if let JsonValue::Obj(ref mut fields) = entries {
        fields.retain(|(k, _)| k != "mergeable");
    }
    let absent = decode_pull(&entries).unwrap();
    assert_eq!(absent.mergeable, None);
}

#[test]
fn pull_nested_pointer_error_path() {
    let v = obj(vec![
        ("number", JsonValue::UInt(3)),
        ("state", s("open")),
        ("title", s("t")),
        ("head", obj(vec![("label", s("a:b")), ("sha", s("abc777"))])),
        (
            "base",
            obj(vec![("label", s("a:c")), ("ref", s("c")), ("sha", s("abc888"))]),
        ),
        ("draft", JsonValue::Bool(false)),
    ]);
    let e = decode_pull(&v).unwrap_err();
    assert_eq!(e.path, vec!["head".to_string(), "ref".to_string()]);
}

#[test]
fn reference_decodes_object_kind() {
    let v = obj(vec![
        ("ref", s("refs/heads/main")),
        (
            "object",
            obj(vec![("type", s("commit")), ("sha", s("abc999"))]),
        ),
    ]);
    let r = decode_reference(&v).unwrap();
    assert_eq!(r.reference, "refs/heads/main");
    assert_eq!(r.object.reference_type, ReferenceType::Commit);
    assert_eq!(r.object.sha, "abc999");
}

#[test]
fn org_and_user_decode_logins() {
    let o = decode_org(&obj(vec![("login", s("acme")), ("name", JsonValue::Null)])).unwrap();
    assert_eq!(o.login, "acme");
    assert_eq!(o.name, None);
    let u = decode_user(&obj(vec![
        ("login", s("dev1")),
        ("site_admin", JsonValue::Bool(false)),
    ]))
    .unwrap();
    assert_eq!(u.login, "dev1");
}

#[test]
fn repo_response_classifies_not_found() {
    let r = repo_response(Err(404));
    match r {
        Err(ApiError::Transport(t)) => {
            assert_eq!(t.kind, TransportErrorKind::NotFound);
            assert_eq!(t.message, "You are not authorized to get this repo");
        }
        _ => panic!("expected a transport error"),
    }
}

#[test]
fn repo_response_classifies_unhandled_with_code() {
    let r = repo_response(Err(418));
    match r {
        Err(ApiError::Transport(t)) => {
            assert_eq!(t.kind, TransportErrorKind::Unhandled);
            assert_eq!(t.message, "Unhandled 418");
        }
        _ => panic!("expected a transport error"),
    }
}

#[test]
fn list_fallbacks_use_each_endpoints_wording() {
    match multigit::client::pulls_response(Err(500)) {
        Err(ApiError::Transport(t)) => assert_eq!(t.message, "Unhandled"),
        _ => panic!("expected a transport error"),
    }
    match branches_response(Err(500)) {
        Err(ApiError::Transport(t)) => assert_eq!(t.message, "Unhandled"),
        _ => panic!("expected a transport error"),
    }
    match comparison_response(Err(418)) {
        Err(ApiError::Transport(t)) => assert_eq!(t.message, "Unhandled"),
        _ => panic!("expected a transport error"),
    }
    match multigit::client::org_response(Err(500)) {
        Err(ApiError::Transport(t)) => assert_eq!(t.message, "Unhandled error 500"),
        _ => panic!("expected a transport error"),
    }
    match multigit::client::orgs_response(Err(500)) {
        Err(ApiError::Transport(t)) => assert_eq!(t.message, "Unhandled error 500"),
        _ => panic!("expected a transport error"),
    }
    match multigit::client::repos_response(Err(418)) {
        Err(ApiError::Transport(t)) => assert_eq!(t.message, "Unhandled status code: 418"),
        _ => panic!("expected a transport error"),
    }
    match pull_response(Err(418)) {
        Err(ApiError::Transport(t)) => assert_eq!(t.message, "Unhandled: 418"),
        _ => panic!("expected a transport error"),
    }
}

#[test]
fn repo_response_reports_field_path_and_keeps_body() {
    let raw = "{\"name\":true}".to_string();
    let v = obj(vec![("name", JsonValue::Bool(true))]);
    let r = repo_response(Ok(RawBody { text: raw.clone(), json: Some(v) }));
    match r {
        Err(e) => {
            assert_eq!(e.error_message(), "Unable to get repo: name");
            assert_eq!(e.extra_info(), Some(raw));
        }
        Ok(_) => panic!("expected a deserialization error"),
    }
}

#[test]
fn repo_response_reports_invalid_json() {
    let raw = "not json".to_string();
    let r = repo_response(Ok(RawBody { text: raw.clone(), json: None }));
    match r {
        Err(e) => {
            assert_eq!(e.error_message(), "Unable to get repo: invalid JSON");
            assert_eq!(e.extra_info(), Some(raw));
        }
        Ok(_) => panic!("expected a deserialization error"),
    }
}

#[test]
fn branches_response_classifies_not_found() {
    let r = branches_response(Err(404));
    match r {
        Err(e) => assert_eq!(e.error_message(), "Resource Not found"),
        Ok(_) => panic!("expected a transport error"),
    }
}

#[test]
fn comparison_response_decodes_status() {
    let v = obj(vec![("status", s("behind"))]);
    let c = comparison_response(Ok(RawBody { text: "{}".to_string(), json: Some(v) })).unwrap();
    assert_eq!(c.status, CompareStatus::Behind);
}

#[test]
fn pull_response_classifies_validation() {
    let r = pull_response(Err(422));
    match r {
        Err(ApiError::Transport(t)) => {
            assert_eq!(t.kind, TransportErrorKind::Validation);
            assert_eq!(t.message, "Invalid");
        }
        _ => panic!("expected a transport error"),
    }
}

#[test]
fn merge_response_classifies_service_unavailable() {
    let r = merge_response(9, Err(503));
    match r {
        Err(ApiError::Transport(t)) => {
            assert_eq!(t.kind, TransportErrorKind::Unavailable);
            assert_eq!(t.message, "Service unavailable");
        }
        _ => panic!("expected a transport error"),
    }
}

#[test]
fn merge_response_decodes_confirmation() {
    let v = obj(vec![
        ("sha", s("abcfff")),
        ("merged", JsonValue::Bool(true)),
        ("message", s("Pull Request successfully merged")),
    ]);
    let m = merge_response(9, Ok(RawBody { text: "{}".to_string(), json: Some(v) })).unwrap();
    assert!(m.merged);
    assert_eq!(m.sha, "abcfff");
}

#[test]
fn merge_response_names_the_pull_request_in_decode_errors() {
    let v = obj(vec![("sha", s("abcfff")), ("message", s("m"))]);
    let raw = "{}".to_string();
    let r = merge_response(17, Ok(RawBody { text: raw.clone(), json: Some(v) }));
    match r {
        Err(e) => {
            assert_eq!(e.error_message(), "Error while merging pull request 17: merged");
            assert_eq!(e.extra_info(), Some(raw));
        }
        Ok(_) => panic!("expected a deserialization error"),
    }
}

#[test]
fn reference_mutations_accept_empty_object() {
    let created = create_reference_response(Ok(RawBody {
        text: "{}".to_string(),
        json: Some(obj(vec![])),
    }));
    assert!(created.is_ok());
    let deleted = delete_reference_response(Ok(RawBody {
        text: "{}".to_string(),
        json: Some(obj(vec![])),
    }));
    assert!(deleted.is_ok());
}

#[test]
fn reference_mutation_reports_shape_and_keeps_body() {
    let r = create_reference_response(Ok(RawBody {
        text: "[]".to_string(),
        json: Some(JsonValue::Arr(vec![])),
    }));
    match r {
        Err(e) => {
            assert_eq!(e.error_message(), "Unable to parse reference response: not an object");
            assert_eq!(e.extra_info(), Some("[]".to_string()));
        }
        Ok(_) => panic!("expected a deserialization error"),
    }
}

#[test]
fn reference_mutation_reports_invalid_json_and_keeps_body() {
    let r = delete_reference_response(Ok(RawBody { text: "gone".to_string(), json: None }));
    match r {
        Err(e) => {
            assert_eq!(e.error_message(), "Unable to parse reference response: invalid JSON");
            assert_eq!(e.extra_info(), Some("gone".to_string()));
        }
        Ok(_) => panic!("expected a deserialization error"),
    }
}

#[test]
fn delete_reference_classifies_validation() {
    let r = delete_reference_response(Err(422));
    match r {
        Err(ApiError::Transport(t)) => {
            assert_eq!(t.kind, TransportErrorKind::Validation);
            assert_eq!(t.message, "Validation error");
        }
        _ => panic!("expected a transport error"),
    }
}

#[test]
fn create_pull_response_classifies_forbidden() {
    let r = multigit::client::create_pull_response(Err(403));
    match r {
        Err(ApiError::Transport(t)) => {
            assert_eq!(t.kind, TransportErrorKind::Forbidden);
            assert_eq!(t.message, "You are not allowed to create a pull request");
        }
        _ => panic!("expected a transport error"),
    }
}

#[test]
fn comparison_response_classifies_internal_error() {
    let r = comparison_response(Err(500));
    match r {
        Err(ApiError::Transport(t)) => {
            assert_eq!(t.kind, TransportErrorKind::Internal);
            assert_eq!(t.message, "Internal Error");
        }
        _ => panic!("expected a transport error"),
    }
}

#[test]
fn me_response_classifies_authentication() {
    let r = multigit::client::me_response(Err(401));
    match r {
        Err(ApiError::Transport(t)) => {
            assert_eq!(t.kind, TransportErrorKind::Unauthorized);
            assert_eq!(t.message, "Authentication required");
        }
        _ => panic!("expected a transport error"),
    }
}

#[test]
fn orgs_response_decodes_a_listing() {
    let v = JsonValue::Arr(vec![
        obj(vec![("login", s("acme"))]),
        obj(vec![("login", s("umbrella")), ("description", s("owns everything"))]),
    ]);
    let os = multigit::client::orgs_response(Ok(RawBody { text: "[]".to_string(), json: Some(v) }))
        .unwrap();
    assert_eq!(os.len(), 2);
    assert_eq!(os[0].login, "acme");
    assert_eq!(os[1].login, "umbrella");
    assert_eq!(os[1].description, Some("owns everything".to_string()));
}

#[test]
fn orgs_response_reports_bad_element_index() {
    let v = JsonValue::Arr(vec![
        obj(vec![("login", s("acme"))]),
        obj(vec![("id", JsonValue::UInt(2))]),
    ]);
    let raw = "[]".to_string();
    let r = multigit::client::orgs_response(Ok(RawBody { text: raw, json: Some(v) }));
    match r {
        Err(e) => assert_eq!(e.error_message(), "Unable to get orgs response: 1.login"),
        Ok(_) => panic!("expected a deserialization error"),
    }
}

#[test]
fn repos_response_decodes_a_listing() {
    let v = JsonValue::Arr(vec![repo_body("svc-a", "acme"), repo_body("svc-b", "acme")]);
    let rs = multigit::client::repos_response(Ok(RawBody { text: "[]".to_string(), json: Some(v) }))
        .unwrap();
    assert_eq!(rs.len(), 2);
    assert_eq!(rs[0].name, "svc-a");
    assert_eq!(rs[1].owner_login, "acme");
}

#[test]
fn org_response_decodes_login() {
    let v = obj(vec![("login", s("acme")), ("name", s("Acme Corp"))]);
    let o = multigit::client::org_response(Ok(RawBody { text: "{}".to_string(), json: Some(v) }))
        .unwrap();
    assert_eq!(o.login, "acme");
    assert_eq!(o.name, Some("Acme Corp".to_string()));
}
