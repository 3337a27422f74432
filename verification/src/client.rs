//! The compute half of the API client.
//!
//! The client splits in two: the functions here build every endpoint path,
//! header value, query and title, and turn a raw HTTP outcome (status code,
//! body text, parsed body) into a typed model or a classified error.  The
//! network call itself — sending the request and collecting the response —
//! happens outside the library, which hands the outcome back as plain
//! values.

use vstd::prelude::*;

use crate::decimal::{dec_str, u64_to_string};
use crate::decode::DecodeError;
use crate::errors::{
    ApiError, GithubAPIResponseDeserializeError, GithubAPIResponseError, TransportErrorKind,
};
use crate::json::JsonValue;
use crate::models::{
    Branch, CommitsComparison, DeleteReference, Org, PullRequest, PullRequestMergeStatus,
    Reference, Repo, User,
};

verus! {

use vstd::string::StringExecFns;

/// A successful HTTP response as the library receives it: the raw body text
/// and, when the text was well-formed JSON, its parsed form.
pub struct RawBody {
    pub text: String,
    pub json: Option<JsonValue>,
}

/// `path` joined with `.` between segments.
pub open spec fn dotted(path: Seq<Seq<char>>) -> Seq<char>
    decreases path.len(),
{
    if path.len() == 0 {
        Seq::<char>::empty()
    } else if path.len() == 1 {
        path[0]
    } else {
        dotted(path.drop_last()) + "."@ + path.last()
    }
}

/// Joins the segments of a field path with `.`.
pub fn join_path(path: &Vec<String>) -> (r: String)
    ensures
        r@ == dotted(path.deep_view()),
{
    let n = path.len();
    let mut s = String::new();
    let mut i: usize = 0;
    while i < n
        invariant
            n == path@.len(),
            i <= n,
            s@ == dotted(path.deep_view().take(i as int)),
        decreases n - i,
    {
        if i > 0 {
            s.append(".");
        }
        s.append(path[i].as_str());
        proof {
            let dv = path.deep_view();
            assert(dv.take(i + 1).drop_last() =~= dv.take(i as int));
            assert(dv.take(i + 1).last() == dv[i as int]);
            if i == 0 {
                assert(s@ =~= dotted(dv.take(1)));
            }
        }
        i += 1;
    }
    proof {
        assert(path.deep_view().take(n as int) =~= path.deep_view());
    }
    s
}

/// The base URL of the forge's REST API, with `endpoint` appended.
pub fn api_url(endpoint: &str) -> (r: String)
    ensures
        r@ == "https://api.github.com/"@ + endpoint@,
{
    let mut s = "https://api.github.com/".to_owned();
    s.append(endpoint);
    s
}

/// The authorization header value for `token`.
pub fn auth_header_value(token: &str) -> (r: String)
    ensures
        r@ == "token "@ + token@,
{
    let mut s = "token ".to_owned();
    s.append(token);
    s
}

/// The fixed client-identifier header value.
pub fn user_agent_value() -> (r: &'static str)
    ensures
        r@ == "MultiGitRs"@,
{
    "MultiGitRs"
}

/// The content-negotiation header value requesting the forge's JSON media
/// type.
pub fn accept_value() -> (r: &'static str)
    ensures
        r@ == "application/vnd.github+json"@,
{
    "application/vnd.github+json"
}

/// The endpoint of a single repository.
pub fn ep_repo(owner: &str, repo: &str) -> (r: String)
    ensures
        r@ == "repos/"@ + owner@ + "/"@ + repo@,
{
    let mut s = "repos/".to_owned();
    s.append(owner);
    s.append("/");
    s.append(repo);
    s
}

/// The endpoint listing the branches of a repository.
pub fn ep_branches(owner: &str, repo: &str) -> (r: String)
    ensures
        r@ == "repos/"@ + owner@ + "/"@ + repo@ + "/branches"@,
{
    let mut s = ep_repo(owner, repo);
    s.append("/branches");
    s
}

/// The endpoint comparing `base` with `head`: the forge's answer describes
/// `head` relative to `base`, so the workflow passes the source branch as
/// `base` and the destination as `head`, and a `behind` or `diverged`
/// status means the destination lacks commits of the source.
pub fn ep_compare(owner: &str, repo: &str, base: &str, head: &str) -> (r: String)
    ensures
        r@ == "repos/"@ + owner@ + "/"@ + repo@ + "/compare/"@ + base@ + "..."@ + head@,
{
    let mut s = ep_repo(owner, repo);
    s.append("/compare/");
    s.append(base);
    s.append("...");
    s.append(head);
    s
}

/// The endpoint listing or creating pull requests.
pub fn ep_pulls(owner: &str, repo: &str) -> (r: String)
    ensures
        r@ == "repos/"@ + owner@ + "/"@ + repo@ + "/pulls"@,
{
    let mut s = ep_repo(owner, repo);
    s.append("/pulls");
    s
}

/// The endpoint of a single pull request.
pub fn ep_pull(owner: &str, repo: &str, number: u64) -> (r: String)
    ensures
        r@ == "repos/"@ + owner@ + "/"@ + repo@ + "/pulls/"@ + dec_str(number as nat),
{
    let mut s = ep_repo(owner, repo);
    s.append("/pulls/");
    let num = u64_to_string(number);
    s.append(num.as_str());
    s
}

/// The endpoint merging a pull request.
pub fn ep_merge(owner: &str, repo: &str, number: u64) -> (r: String)
    ensures
        r@ == "repos/"@ + owner@ + "/"@ + repo@ + "/pulls/"@ + dec_str(number as nat)
            + "/merge"@,
{
    let mut s = ep_pull(owner, repo, number);
    s.append("/merge");
    s
}

/// The endpoint creating a git reference.
pub fn ep_refs(owner: &str, repo: &str) -> (r: String)
    ensures
        r@ == "repos/"@ + owner@ + "/"@ + repo@ + "/git/refs"@,
{
    let mut s = ep_repo(owner, repo);
    s.append("/git/refs");
    s
}

/// The endpoint reading the reference of branch `branch`.
pub fn ep_ref_heads(owner: &str, repo: &str, branch: &str) -> (r: String)
    ensures
        r@ == "repos/"@ + owner@ + "/"@ + repo@ + "/git/refs/heads/"@ + branch@,
{
    let mut s = ep_repo(owner, repo);
    s.append("/git/refs/heads/");
    s.append(branch);
    s
}

/// The endpoint deleting the reference of branch `branch`.
pub fn ep_delete_ref(owner: &str, repo: &str, branch: &str) -> (r: String)
    ensures
        r@ == "repos/"@ + owner@ + "/"@ + repo@ + "/git/refs/heads/"@ + branch@,
{
    ep_ref_heads(owner, repo, branch)
}

/// The fully qualified name of branch `branch`, as a reference-creation body
/// wants it.
pub fn ref_path(branch: &str) -> (r: String)
    ensures
        r@ == "refs/heads/"@ + branch@,
{
    let mut s = "refs/heads/".to_owned();
    s.append(branch);
    s
}

/// The title of a pull request created for `reference`, merging `from` into
/// `to`.
pub fn pull_title(reference: &str, from: &str, to: &str) -> (r: String)
    ensures
        r@ == "PR for: "@ + reference@ + ". "@ + from@ + " into "@ + to@,
{
    let mut s = "PR for: ".to_owned();
    s.append(reference);
    s.append(". ");
    s.append(from);
    s.append(" into ");
    s.append(to);
    s
}

/// The label the forge gives one end of a pull request: `owner`, a colon,
/// and the branch name.
pub fn label_of(owner: &str, branch: &str) -> (r: String)
    ensures
        r@ == owner@ + ":"@ + branch@,
{
    let mut s = owner.to_owned();
    s.append(":");
    s.append(branch);
    s
}

/// A transport error with a fixed message.
fn transport(kind: TransportErrorKind, msg: &str) -> (r: GithubAPIResponseError)
    ensures
        r.kind == kind,
        r.message@ == msg@,
{
    GithubAPIResponseError { kind, message: msg.to_owned() }
}

/// The fallback message of the endpoints that report an unclassified
/// status as `Unhandled: {code}`.  Fallback wording is endpoint-specific:
/// some endpoints name the bare word, others put the code after their own
/// prefix.  The code is rendered as the decimal status number alone; a
/// human-readable reason phrase varies by transport and is not part of the
/// classification.
pub open spec fn unhandled_message(code: u16) -> Seq<char> {
    "Unhandled: "@ + dec_str(code as nat)
}

/// A transport error for an unclassified status code, with the endpoint's
/// own fallback wording around the decimal code.
fn unhandled_with(prefix_text: &str, code: u16) -> (r: GithubAPIResponseError)
    ensures
        r.kind == TransportErrorKind::Unhandled,
        r.message@ == prefix_text@ + dec_str(code as nat),
{
    let mut m = prefix_text.to_owned();
    let num = u64_to_string(code as u64);
    m.append(num.as_str());
    GithubAPIResponseError { kind: TransportErrorKind::Unhandled, message: m }
}

/// The transport error for the endpoints whose fallback reads
/// `Unhandled: {code}`.
fn unhandled(code: u16) -> (r: GithubAPIResponseError)
    ensures
        r.kind == TransportErrorKind::Unhandled,
        r.message@ == unhandled_message(code),
{
    unhandled_with("Unhandled: ", code)
}

/// A deserialization error naming the failing field path, with the raw body
/// kept for diagnosis.
fn deser_error(prefix_text: &str, e: DecodeError, raw: String) -> (r:
    GithubAPIResponseDeserializeError)
    ensures
        r.parse_error@ == prefix_text@ + dotted(e.path.deep_view()),
        r.original_response == Some(raw),
{
    let mut m = prefix_text.to_owned();
    let joined = join_path(&e.path);
    m.append(joined.as_str());
    GithubAPIResponseDeserializeError { parse_error: m, original_response: Some(raw) }
}

/// A deserialization error for a body that was not JSON at all.
fn invalid_json_error(prefix_text: &str, raw: String) -> (r: GithubAPIResponseDeserializeError)
    ensures
        r.parse_error@ == prefix_text@ + "invalid JSON"@,
        r.original_response == Some(raw),
{
    let mut m = prefix_text.to_owned();
    m.append("invalid JSON");
    GithubAPIResponseDeserializeError { parse_error: m, original_response: Some(raw) }
}

/// A deserialization error for a body whose overall shape is wrong, with no
/// field path to point at.
fn shape_error(prefix_text: &str, detail: &str, raw: String) -> (r:
    GithubAPIResponseDeserializeError)
    ensures
        r.parse_error@ == prefix_text@ + detail@,
        r.original_response == Some(raw),
{
    let mut m = prefix_text.to_owned();
    m.append(detail);
    GithubAPIResponseDeserializeError { parse_error: m, original_response: Some(raw) }
}

/// Classification of a repository fetch failure.
pub open spec fn repo_status_kind(code: u16) -> TransportErrorKind {
    if code == 403 {
        TransportErrorKind::Forbidden
    } else if code == 404 {
        TransportErrorKind::NotFound
    } else {
        TransportErrorKind::Unhandled
    }
}

/// The message of a repository fetch failure.
pub open spec fn repo_status_message(code: u16) -> Seq<char> {
    if code == 403 || code == 404 {
        "You are not authorized to get this repo"@
    } else {
        "Unhandled "@ + dec_str(code as nat)
    }
}

/// What `repo_response` returns for each outcome.
pub open spec fn repo_response_spec(outcome: Result<RawBody, u16>, r: Result<Repo, ApiError>) -> bool {
    match outcome {
        Ok(b) => match b.json {
            None => r matches Err(ApiError::Deserialize(d))
                && d.parse_error@ == "Unable to get repo: "@ + "invalid JSON"@
                && d.original_response == Some(b.text),
            Some(v) => if crate::decode::repo_wf(v) {
                r matches Ok(repo) && crate::decode::repo_matches(v, repo)
            } else {
                r matches Err(ApiError::Deserialize(d))
                    && d.parse_error@ == "Unable to get repo: "@ + dotted(crate::decode::repo_err_path(v))
                    && d.original_response == Some(b.text)
            },
        },
        Err(code) => r matches Err(ApiError::Transport(t))
            && t.kind == repo_status_kind(code)
            && t.message@ == repo_status_message(code),
    }
}

/// Turns the outcome of a repository fetch into a typed repository or a
/// classified error.
pub fn repo_response(outcome: Result<RawBody, u16>) -> (r: Result<Repo, ApiError>)
    ensures
        repo_response_spec(outcome, r),
{
    match outcome {
        Ok(body) => {
            let RawBody { text, json } = body;
            match json {
                Some(v) => match crate::decode::decode_repo(&v) {
                    Ok(repo) => Ok(repo),
                    Err(e) => Err(
                        ApiError::Deserialize(deser_error("Unable to get repo: ", e, text)),
                    ),
                },
                None => Err(
                    ApiError::Deserialize(invalid_json_error("Unable to get repo: ", text)),
                ),
            }
        },
        Err(code) => {
            if code == 403 {
                Err(
                    ApiError::Transport(
                        transport(
                            TransportErrorKind::Forbidden,
                            "You are not authorized to get this repo",
                        ),
                    ),
                )
            } else if code == 404 {
                Err(
                    ApiError::Transport(
                        transport(
                            TransportErrorKind::NotFound,
                            "You are not authorized to get this repo",
                        ),
                    ),
                )
            } else {
                Err(ApiError::Transport(unhandled_with("Unhandled ", code)))
            }
        },
    }
}

/// Classification of a branch list fetch failure.
pub open spec fn branches_status_kind(code: u16) -> TransportErrorKind {
    if code == 404 {
        TransportErrorKind::NotFound
    } else {
        TransportErrorKind::Unhandled
    }
}

/// The message of a branch list fetch failure.
pub open spec fn branches_status_message(code: u16) -> Seq<char> {
    if code == 404 {
        "Resource Not found"@
    } else {
        "Unhandled"@
    }
}

/// What `branches_response` returns for each outcome.
pub open spec fn branches_response_spec(
    outcome: Result<RawBody, u16>,
    r: Result<Vec<Branch>, ApiError>,
) -> bool {
    match outcome {
        Ok(b) => match b.json {
            None => r matches Err(ApiError::Deserialize(d))
                && d.parse_error@ == "Error: Unable to get branches: "@ + "invalid JSON"@
                && d.original_response == Some(b.text),
            Some(v) => if crate::decode::branches_wf(v) {
                r matches Ok(bs) && (v matches JsonValue::Arr(a) && bs@.len() == a@.len()
                    && (forall|i: int|
                        0 <= i < a@.len() ==> crate::decode::branch_matches(
                            #[trigger] a@[i],
                            bs@[i],
                        )))
            } else {
                r matches Err(ApiError::Deserialize(d))
                    && d.parse_error@ == "Error: Unable to get branches: "@
                        + dotted(crate::decode::branches_err_path(v))
                    && d.original_response == Some(b.text)
            },
        },
        Err(code) => r matches Err(ApiError::Transport(t))
            && t.kind == branches_status_kind(code)
            && t.message@ == branches_status_message(code),
    }
}

/// Turns the outcome of a branch list fetch into typed branches or a
/// classified error.
pub fn branches_response(outcome: Result<RawBody, u16>) -> (r: Result<Vec<Branch>, ApiError>)
    ensures
        branches_response_spec(outcome, r),
{
    match outcome {
        Ok(body) => {
            let RawBody { text, json } = body;
            match json {
                Some(v) => match crate::decode::decode_branches(&v) {
                    Ok(bs) => Ok(bs),
                    Err(e) => Err(
                        ApiError::Deserialize(
                            deser_error("Error: Unable to get branches: ", e, text),
                        ),
                    ),
                },
                None => Err(
                    ApiError::Deserialize(
                        invalid_json_error("Error: Unable to get branches: ", text),
                    ),
                ),
            }
        },
        Err(code) => {
            if code == 404 {
                Err(
                    ApiError::Transport(
                        transport(TransportErrorKind::NotFound, "Resource Not found"),
                    ),
                )
            } else {
                Err(ApiError::Transport(transport(TransportErrorKind::Unhandled, "Unhandled")))
            }
        },
    }
}

/// Classification of a comparison fetch failure.
pub open spec fn comparison_status_kind(code: u16) -> TransportErrorKind {
    if code == 404 {
        TransportErrorKind::NotFound
    } else if code == 500 {
        TransportErrorKind::Internal
    } else {
        TransportErrorKind::Unhandled
    }
}

/// The message of a comparison fetch failure.
pub open spec fn comparison_status_message(code: u16) -> Seq<char> {
    if code == 404 {
        "Not found"@
    } else if code == 500 {
        "Internal Error"@
    } else {
        "Unhandled"@
    }
}

/// What `comparison_response` returns for each outcome.
pub open spec fn comparison_response_spec(
    outcome: Result<RawBody, u16>,
    r: Result<CommitsComparison, ApiError>,
) -> bool {
    match outcome {
        Ok(b) => match b.json {
            None => r matches Err(ApiError::Deserialize(d))
                && d.parse_error@ == "Unable to get comparison: "@ + "invalid JSON"@
                && d.original_response == Some(b.text),
            Some(v) => if crate::decode::comparison_wf(v) {
                r matches Ok(c) && crate::decode::comparison_matches(v, c)
            } else {
                r matches Err(ApiError::Deserialize(d))
                    && d.parse_error@ == "Unable to get comparison: "@ + dotted(seq!["status"@])
                    && d.original_response == Some(b.text)
            },
        },
        Err(code) => r matches Err(ApiError::Transport(t))
            && t.kind == comparison_status_kind(code)
            && t.message@ == comparison_status_message(code),
    }
}

/// Turns the outcome of a branch comparison into a typed comparison or a
/// classified error.
pub fn comparison_response(outcome: Result<RawBody, u16>) -> (r: Result<CommitsComparison, ApiError>)
    ensures
        comparison_response_spec(outcome, r),
{
    match outcome {
        Ok(body) => {
            let RawBody { text, json } = body;
            match json {
                Some(v) => match crate::decode::decode_comparison(&v) {
                    Ok(c) => Ok(c),
                    Err(e) => Err(
                        ApiError::Deserialize(deser_error("Unable to get comparison: ", e, text)),
                    ),
                },
                None => Err(
                    ApiError::Deserialize(invalid_json_error("Unable to get comparison: ", text)),
                ),
            }
        },
        Err(code) => {
            if code == 404 {
                Err(ApiError::Transport(transport(TransportErrorKind::NotFound, "Not found")))
            } else if code == 500 {
                Err(ApiError::Transport(transport(TransportErrorKind::Internal, "Internal Error")))
            } else {
                Err(ApiError::Transport(transport(TransportErrorKind::Unhandled, "Unhandled")))
            }
        },
    }
}


/// Classification of a single pull request fetch failure.
pub open spec fn pull_status_kind(code: u16) -> TransportErrorKind {
    if code == 422 {
        TransportErrorKind::Validation
    } else if code == 404 {
        TransportErrorKind::NotFound
    } else if code == 500 {
        TransportErrorKind::Internal
    } else {
        TransportErrorKind::Unhandled
    }
}

/// The message of a single pull request fetch failure.
pub open spec fn pull_status_message(code: u16) -> Seq<char> {
    if code == 422 {
        "Invalid"@
    } else if code == 404 {
        "Pull Request not found"@
    } else if code == 500 {
        "Internal server error"@
    } else {
        unhandled_message(code)
    }
}

/// What `pull_response` returns for each outcome.
pub open spec fn pull_response_spec(
    outcome: Result<RawBody, u16>,
    r: Result<PullRequest, ApiError>,
) -> bool {
    match outcome {
        Ok(b) => match b.json {
            None => r matches Err(ApiError::Deserialize(d))
                && d.parse_error@ == "Unable to get list of pull requests: "@ + "invalid JSON"@
                && d.original_response == Some(b.text),
            Some(v) => if crate::decode::pull_wf(v) {
                r matches Ok(p) && crate::decode::pull_matches(v, p)
            } else {
                r matches Err(ApiError::Deserialize(d))
                    && d.parse_error@ == "Unable to get list of pull requests: "@
                        + dotted(crate::decode::pull_err_path(v))
                    && d.original_response == Some(b.text)
            },
        },
        Err(code) => r matches Err(ApiError::Transport(t))
            && t.kind == pull_status_kind(code)
            && t.message@ == pull_status_message(code),
    }
}

/// Turns the outcome of a single pull request fetch into a typed pull
/// request or a classified error.  The single-entity fetch is the one that
/// populates `mergeable`; the list endpoint omits it.
pub fn pull_response(outcome: Result<RawBody, u16>) -> (r: Result<PullRequest, ApiError>)
    ensures
        pull_response_spec(outcome, r),
{
    match outcome {
        Ok(body) => {
            let RawBody { text, json } = body;
            match json {
                Some(v) => match crate::decode::decode_pull(&v) {
                    Ok(p) => Ok(p),
                    Err(e) => Err(
                        ApiError::Deserialize(
                            deser_error("Unable to get list of pull requests: ", e, text),
                        ),
                    ),
                },
                None => Err(
                    ApiError::Deserialize(
                        invalid_json_error("Unable to get list of pull requests: ", text),
                    ),
                ),
            }
        },
        Err(code) => {
            if code == 422 {
                Err(ApiError::Transport(transport(TransportErrorKind::Validation, "Invalid")))
            } else if code == 404 {
                Err(
                    ApiError::Transport(
                        transport(TransportErrorKind::NotFound, "Pull Request not found"),
                    ),
                )
            } else if code == 500 {
                Err(
                    ApiError::Transport(
                        transport(TransportErrorKind::Internal, "Internal server error"),
                    ),
                )
            } else {
                Err(ApiError::Transport(unhandled(code)))
            }
        },
    }
}

/// Classification of a pull request list fetch failure.
pub open spec fn pulls_status_kind(code: u16) -> TransportErrorKind {
    if code == 422 {
        TransportErrorKind::Validation
    } else {
        TransportErrorKind::Unhandled
    }
}

/// The message of a pull request list fetch failure.
pub open spec fn pulls_status_message(code: u16) -> Seq<char> {
    if code == 422 {
        "Invalid"@
    } else {
        "Unhandled"@
    }
}

/// What `pulls_response` returns for each outcome.
pub open spec fn pulls_response_spec(
    outcome: Result<RawBody, u16>,
    r: Result<Vec<PullRequest>, ApiError>,
) -> bool {
    match outcome {
        Ok(b) => match b.json {
            None => r matches Err(ApiError::Deserialize(d))
                && d.parse_error@ == "Unable to get list of pull requests: "@ + "invalid JSON"@
                && d.original_response == Some(b.text),
            Some(v) => if crate::decode::pulls_wf(v) {
                r matches Ok(ps) && (v matches JsonValue::Arr(a) && ps@.len() == a@.len()
                    && (forall|i: int|
                        0 <= i < a@.len() ==> crate::decode::pull_matches(
                            #[trigger] a@[i],
                            ps@[i],
                        )))
            } else {
                r matches Err(ApiError::Deserialize(d))
                    && d.parse_error@ == "Unable to get list of pull requests: "@
                        + dotted(crate::decode::pulls_err_path(v))
                    && d.original_response == Some(b.text)
            },
        },
        Err(code) => r matches Err(ApiError::Transport(t))
            && t.kind == pulls_status_kind(code)
            && t.message@ == pulls_status_message(code),
    }
}

/// Turns the outcome of a pull request list fetch into typed pull requests
/// or a classified error.
pub fn pulls_response(outcome: Result<RawBody, u16>) -> (r: Result<Vec<PullRequest>, ApiError>)
    ensures
        pulls_response_spec(outcome, r),
{
    match outcome {
        Ok(body) => {
            let RawBody { text, json } = body;
            match json {
                Some(v) => match crate::decode::decode_pulls(&v) {
                    Ok(ps) => Ok(ps),
                    Err(e) => Err(
                        ApiError::Deserialize(
                            deser_error("Unable to get list of pull requests: ", e, text),
                        ),
                    ),
                },
                None => Err(
                    ApiError::Deserialize(
                        invalid_json_error("Unable to get list of pull requests: ", text),
                    ),
                ),
            }
        },
        Err(code) => {
            if code == 422 {
                Err(ApiError::Transport(transport(TransportErrorKind::Validation, "Invalid")))
            } else {
                Err(ApiError::Transport(transport(TransportErrorKind::Unhandled, "Unhandled")))
            }
        },
    }
}

/// Classification of a pull request creation failure.
pub open spec fn create_pull_status_kind(code: u16) -> TransportErrorKind {
    if code == 403 {
        TransportErrorKind::Forbidden
    } else if code == 422 {
        TransportErrorKind::Validation
    } else {
        TransportErrorKind::Unhandled
    }
}

/// The message of a pull request creation failure.
pub open spec fn create_pull_status_message(code: u16) -> Seq<char> {
    if code == 403 {
        "You are not allowed to create a pull request"@
    } else if code == 422 {
        "Invalid request"@
    } else {
        unhandled_message(code)
    }
}

/// What `create_pull_response` returns for each outcome.
pub open spec fn create_pull_response_spec(
    outcome: Result<RawBody, u16>,
    r: Result<PullRequest, ApiError>,
) -> bool {
    match outcome {
        Ok(b) => match b.json {
            None => r matches Err(ApiError::Deserialize(d))
                && d.parse_error@ == "Unable to create pull request: "@ + "invalid JSON"@
                && d.original_response == Some(b.text),
            Some(v) => if crate::decode::pull_wf(v) {
                r matches Ok(p) && crate::decode::pull_matches(v, p)
            } else {
                r matches Err(ApiError::Deserialize(d))
                    && d.parse_error@ == "Unable to create pull request: "@
                        + dotted(crate::decode::pull_err_path(v))
                    && d.original_response == Some(b.text)
            },
        },
        Err(code) => r matches Err(ApiError::Transport(t))
            && t.kind == create_pull_status_kind(code)
            && t.message@ == create_pull_status_message(code),
    }
}

/// Turns the outcome of a pull request creation into the created pull
/// request or a classified error.
pub fn create_pull_response(outcome: Result<RawBody, u16>) -> (r: Result<PullRequest, ApiError>)
    ensures
        create_pull_response_spec(outcome, r),
{
    match outcome {
        Ok(body) => {
            let RawBody { text, json } = body;
            match json {
                Some(v) => match crate::decode::decode_pull(&v) {
                    Ok(p) => Ok(p),
                    Err(e) => Err(
                        ApiError::Deserialize(
                            deser_error("Unable to create pull request: ", e, text),
                        ),
                    ),
                },
                None => Err(
                    ApiError::Deserialize(
                        invalid_json_error("Unable to create pull request: ", text),
                    ),
                ),
            }
        },
        Err(code) => {
            if code == 403 {
                Err(
                    ApiError::Transport(
                        transport(
                            TransportErrorKind::Forbidden,
                            "You are not allowed to create a pull request",
                        ),
                    ),
                )
            } else if code == 422 {
                Err(
                    ApiError::Transport(
                        transport(TransportErrorKind::Validation, "Invalid request"),
                    ),
                )
            } else {
                Err(ApiError::Transport(unhandled(code)))
            }
        },
    }
}

/// Classification of a merge failure.
pub open spec fn merge_status_kind(code: u16) -> TransportErrorKind {
    if code == 500 {
        TransportErrorKind::Internal
    } else if code == 503 {
        TransportErrorKind::Unavailable
    } else if code == 422 {
        TransportErrorKind::Validation
    } else {
        TransportErrorKind::Unhandled
    }
}

/// The message of a merge failure.
pub open spec fn merge_status_message(code: u16) -> Seq<char> {
    if code == 500 {
        "Internal Error"@
    } else if code == 503 {
        "Service unavailable"@
    } else if code == 422 {
        "Unprocessable entity"@
    } else {
        unhandled_message(code)
    }
}

/// The message prefix of a merge body that failed to decode: it names the
/// pull request by number.
pub open spec fn merge_deser_prefix(number: u64) -> Seq<char> {
    "Error while merging pull request "@ + dec_str(number as nat) + ": "@
}

/// What `merge_response` returns for each outcome.
pub open spec fn merge_response_spec(
    number: u64,
    outcome: Result<RawBody, u16>,
    r: Result<PullRequestMergeStatus, ApiError>,
) -> bool {
    match outcome {
        Ok(b) => match b.json {
            None => r matches Err(ApiError::Deserialize(d))
                && d.parse_error@ == merge_deser_prefix(number) + "invalid JSON"@
                && d.original_response == Some(b.text),
            Some(v) => if crate::decode::merge_status_wf(v) {
                r matches Ok(m) && crate::decode::merge_status_matches(v, m)
            } else {
                r matches Err(ApiError::Deserialize(d))
                    && d.parse_error@ == merge_deser_prefix(number)
                        + dotted(crate::decode::merge_status_err_path(v))
                    && d.original_response == Some(b.text)
            },
        },
        Err(code) => r matches Err(ApiError::Transport(t))
            && t.kind == merge_status_kind(code)
            && t.message@ == merge_status_message(code),
    }
}

/// Turns the outcome of merging pull request `number` into a typed merge
/// outcome or a classified error.
pub fn merge_response(number: u64, outcome: Result<RawBody, u16>) -> (r: Result<
    PullRequestMergeStatus,
    ApiError,
>)
    ensures
        merge_response_spec(number, outcome, r),
{
    match outcome {
        Ok(body) => {
            let RawBody { text, json } = body;
            let mut prefix = "Error while merging pull request ".to_owned();
            let num = u64_to_string(number);
            prefix.append(num.as_str());
            prefix.append(": ");
            match json {
                Some(v) => match crate::decode::decode_merge_status(&v) {
                    Ok(m) => Ok(m),
                    Err(e) => Err(ApiError::Deserialize(deser_error(prefix.as_str(), e, text))),
                },
                None => Err(ApiError::Deserialize(invalid_json_error(prefix.as_str(), text))),
            }
        },
        Err(code) => {
            if code == 500 {
                Err(ApiError::Transport(transport(TransportErrorKind::Internal, "Internal Error")))
            } else if code == 503 {
                Err(
                    ApiError::Transport(
                        transport(TransportErrorKind::Unavailable, "Service unavailable"),
                    ),
                )
            } else if code == 422 {
                Err(
                    ApiError::Transport(
                        transport(TransportErrorKind::Validation, "Unprocessable entity"),
                    ),
                )
            } else {
                Err(ApiError::Transport(unhandled(code)))
            }
        },
    }
}

/// Classification of a reference fetch failure.
pub open spec fn reference_status_kind(code: u16) -> TransportErrorKind {
    if code == 422 {
        TransportErrorKind::Validation
    } else {
        TransportErrorKind::Unhandled
    }
}

/// The message of a reference fetch failure.
pub open spec fn reference_status_message(code: u16) -> Seq<char> {
    if code == 422 {
        "Validation error"@
    } else {
        unhandled_message(code)
    }
}

/// What `reference_response` returns for each outcome.
pub open spec fn reference_response_spec(
    outcome: Result<RawBody, u16>,
    r: Result<Reference, ApiError>,
) -> bool {
    match outcome {
        Ok(b) => match b.json {
            None => r matches Err(ApiError::Deserialize(d))
                && d.parse_error@ == "Unable to parse ref get: "@ + "invalid JSON"@
                && d.original_response == Some(b.text),
            Some(v) => if crate::decode::reference_wf(v) {
                r matches Ok(reference) && crate::decode::reference_matches(v, reference)
            } else {
                r matches Err(ApiError::Deserialize(d))
                    && d.parse_error@ == "Unable to parse ref get: "@
                        + dotted(crate::decode::reference_err_path(v))
                    && d.original_response == Some(b.text)
            },
        },
        Err(code) => r matches Err(ApiError::Transport(t))
            && t.kind == reference_status_kind(code)
            && t.message@ == reference_status_message(code),
    }
}

/// Turns the outcome of a reference fetch into a typed reference or a
/// classified error.
pub fn reference_response(outcome: Result<RawBody, u16>) -> (r: Result<Reference, ApiError>)
    ensures
        reference_response_spec(outcome, r),
{
    match outcome {
        Ok(body) => {
            let RawBody { text, json } = body;
            match json {
                Some(v) => match crate::decode::decode_reference(&v) {
                    Ok(reference) => Ok(reference),
                    Err(e) => Err(
                        ApiError::Deserialize(deser_error("Unable to parse ref get: ", e, text)),
                    ),
                },
                None => Err(
                    ApiError::Deserialize(invalid_json_error("Unable to parse ref get: ", text)),
                ),
            }
        },
        Err(code) => {
            if code == 422 {
                Err(
                    ApiError::Transport(
                        transport(TransportErrorKind::Validation, "Validation error"),
                    ),
                )
            } else {
                Err(ApiError::Transport(unhandled(code)))
            }
        },
    }
}

/// Classification of a reference creation or deletion failure.
pub open spec fn ref_mutation_status_kind(code: u16) -> TransportErrorKind {
    if code == 422 {
        TransportErrorKind::Validation
    } else {
        TransportErrorKind::Unhandled
    }
}

/// The message of a reference creation or deletion failure.  Creation and
/// deletion share one classification; an unclassified status carries the
/// decimal code.
pub open spec fn ref_mutation_status_message(code: u16) -> Seq<char> {
    if code == 422 {
        "Validation error"@
    } else {
        unhandled_message(code)
    }
}

/// What a reference creation or deletion returns for each outcome.  The
/// forge answers with an object; a body of any other shape reports a
/// deserialization error that keeps the raw body for offline diagnosis.
pub open spec fn ref_mutation_response_spec(
    outcome: Result<RawBody, u16>,
    r: Result<DeleteReference, ApiError>,
) -> bool {
    match outcome {
        Ok(b) => match b.json {
            Some(v) => if v is Obj {
                r is Ok
            } else {
                r matches Err(ApiError::Deserialize(d)) && d.parse_error@
                    == "Unable to parse reference response: "@ + "not an object"@
                    && d.original_response == Some(b.text)
            },
            None => r matches Err(ApiError::Deserialize(d)) && d.parse_error@
                == "Unable to parse reference response: "@ + "invalid JSON"@
                && d.original_response == Some(b.text),
        },
        Err(code) => r matches Err(ApiError::Transport(t))
            && t.kind == ref_mutation_status_kind(code)
            && t.message@ == ref_mutation_status_message(code),
    }
}

/// Turns the outcome of a reference creation into a confirmation or a
/// classified error.
pub fn create_reference_response(outcome: Result<RawBody, u16>) -> (r: Result<
    DeleteReference,
    ApiError,
>)
    ensures
        ref_mutation_response_spec(outcome, r),
{
    ref_mutation_response(outcome)
}

/// Turns the outcome of a reference deletion into a confirmation or a
/// classified error.
pub fn delete_reference_response(outcome: Result<RawBody, u16>) -> (r: Result<
    DeleteReference,
    ApiError,
>)
    ensures
        ref_mutation_response_spec(outcome, r),
{
    ref_mutation_response(outcome)
}

fn ref_mutation_response(outcome: Result<RawBody, u16>) -> (r: Result<DeleteReference, ApiError>)
    ensures
        ref_mutation_response_spec(outcome, r),
{
    match outcome {
        Ok(body) => {
            let RawBody { text, json } = body;
            match json {
                Some(v) => match crate::decode::decode_delete_reference(&v) {
                    Ok(d) => Ok(d),
                    Err(_) => Err(
                        ApiError::Deserialize(
                            shape_error(
                                "Unable to parse reference response: ",
                                "not an object",
                                text,
                            ),
                        ),
                    ),
                },
                None => Err(
                    ApiError::Deserialize(
                        shape_error("Unable to parse reference response: ", "invalid JSON", text),
                    ),
                ),
            }
        },
        Err(code) => {
            if code == 422 {
                Err(
                    ApiError::Transport(
                        transport(TransportErrorKind::Validation, "Validation error"),
                    ),
                )
            } else {
                Err(ApiError::Transport(unhandled(code)))
            }
        },
    }
}


/// Classification of an organization fetch failure.
pub open spec fn org_status_kind(code: u16) -> TransportErrorKind {
    if code == 404 {
        TransportErrorKind::NotFound
    } else {
        TransportErrorKind::Unhandled
    }
}

/// The message of an organization fetch failure.
pub open spec fn org_status_message(code: u16) -> Seq<char> {
    if code == 404 {
        "Not found"@
    } else {
        "Unhandled error "@ + dec_str(code as nat)
    }
}

/// What `org_response` returns for each outcome.
pub open spec fn org_response_spec(outcome: Result<RawBody, u16>, r: Result<Org, ApiError>) -> bool {
    match outcome {
        Ok(b) => match b.json {
            None => r matches Err(ApiError::Deserialize(d))
                && d.parse_error@ == "Unable to get orgs response: "@ + "invalid JSON"@
                && d.original_response == Some(b.text),
            Some(v) => if crate::decode::org_wf(v) {
                r matches Ok(o) && crate::decode::org_matches(v, o)
            } else {
                r matches Err(ApiError::Deserialize(d))
                    && d.parse_error@ == "Unable to get orgs response: "@
                        + dotted(crate::decode::org_err_path(v))
                    && d.original_response == Some(b.text)
            },
        },
        Err(code) => r matches Err(ApiError::Transport(t))
            && t.kind == org_status_kind(code)
            && t.message@ == org_status_message(code),
    }
}

/// Turns the outcome of an organization fetch into a typed organization or
/// a classified error.
pub fn org_response(outcome: Result<RawBody, u16>) -> (r: Result<Org, ApiError>)
    ensures
        org_response_spec(outcome, r),
{
    match outcome {
        Ok(body) => {
            let RawBody { text, json } = body;
            match json {
                Some(v) => match crate::decode::decode_org(&v) {
                    Ok(o) => Ok(o),
                    Err(e) => Err(
                        ApiError::Deserialize(
                            deser_error("Unable to get orgs response: ", e, text),
                        ),
                    ),
                },
                None => Err(
                    ApiError::Deserialize(
                        invalid_json_error("Unable to get orgs response: ", text),
                    ),
                ),
            }
        },
        Err(code) => {
            if code == 404 {
                Err(ApiError::Transport(transport(TransportErrorKind::NotFound, "Not found")))
            } else {
                Err(ApiError::Transport(unhandled_with("Unhandled error ", code)))
            }
        },
    }
}

/// Classification of an organization list fetch failure.
pub open spec fn orgs_status_kind(code: u16) -> TransportErrorKind {
    if code == 403 {
        TransportErrorKind::Forbidden
    } else if code == 401 {
        TransportErrorKind::Unauthorized
    } else {
        TransportErrorKind::Unhandled
    }
}

/// The message of an organization list fetch failure.
pub open spec fn orgs_status_message(code: u16) -> Seq<char> {
    if code == 403 || code == 401 {
        "Not authorized"@
    } else {
        "Unhandled error "@ + dec_str(code as nat)
    }
}

/// What `orgs_response` returns for each outcome.
pub open spec fn orgs_response_spec(
    outcome: Result<RawBody, u16>,
    r: Result<Vec<Org>, ApiError>,
) -> bool {
    match outcome {
        Ok(b) => match b.json {
            None => r matches Err(ApiError::Deserialize(d))
                && d.parse_error@ == "Unable to get orgs response: "@ + "invalid JSON"@
                && d.original_response == Some(b.text),
            Some(v) => if crate::decode::orgs_wf(v) {
                r matches Ok(os) && (v matches JsonValue::Arr(a) && os@.len() == a@.len()
                    && (forall|i: int|
                        0 <= i < a@.len() ==> crate::decode::org_matches(#[trigger] a@[i], os@[i])))
            } else {
                r matches Err(ApiError::Deserialize(d))
                    && d.parse_error@ == "Unable to get orgs response: "@
                        + dotted(crate::decode::orgs_err_path(v))
                    && d.original_response == Some(b.text)
            },
        },
        Err(code) => r matches Err(ApiError::Transport(t))
            && t.kind == orgs_status_kind(code)
            && t.message@ == orgs_status_message(code),
    }
}

/// Turns the outcome of the signed-in user's organization list fetch into
/// typed organizations or a classified error.
pub fn orgs_response(outcome: Result<RawBody, u16>) -> (r: Result<Vec<Org>, ApiError>)
    ensures
        orgs_response_spec(outcome, r),
{
    match outcome {
        Ok(body) => {
            let RawBody { text, json } = body;
            match json {
                Some(v) => match crate::decode::decode_orgs(&v) {
                    Ok(os) => Ok(os),
                    Err(e) => Err(
                        ApiError::Deserialize(
                            deser_error("Unable to get orgs response: ", e, text),
                        ),
                    ),
                },
                None => Err(
                    ApiError::Deserialize(
                        invalid_json_error("Unable to get orgs response: ", text),
                    ),
                ),
            }
        },
        Err(code) => {
            if code == 403 {
                Err(ApiError::Transport(transport(TransportErrorKind::Forbidden, "Not authorized")))
            } else if code == 401 {
                Err(
                    ApiError::Transport(
                        transport(TransportErrorKind::Unauthorized, "Not authorized"),
                    ),
                )
            } else {
                Err(ApiError::Transport(unhandled_with("Unhandled error ", code)))
            }
        },
    }
}

/// Classification of a signed-in user fetch failure.
pub open spec fn me_status_kind(code: u16) -> TransportErrorKind {
    if code == 401 {
        TransportErrorKind::Unauthorized
    } else if code == 403 {
        TransportErrorKind::Forbidden
    } else {
        TransportErrorKind::Unhandled
    }
}

/// The message of a signed-in user fetch failure.
pub open spec fn me_status_message(code: u16) -> Seq<char> {
    if code == 401 {
        "Authentication required"@
    } else if code == 403 {
        "Forbidden"@
    } else {
        unhandled_message(code)
    }
}

/// What `me_response` returns for each outcome.
pub open spec fn me_response_spec(outcome: Result<RawBody, u16>, r: Result<User, ApiError>) -> bool {
    match outcome {
        Ok(b) => match b.json {
            None => r matches Err(ApiError::Deserialize(d))
                && d.parse_error@ == "Unable to get authenticated user: "@ + "invalid JSON"@
                && d.original_response == Some(b.text),
            Some(v) => if crate::decode::user_wf(v) {
                r matches Ok(u) && crate::decode::user_matches(v, u)
            } else {
                r matches Err(ApiError::Deserialize(d))
                    && d.parse_error@ == "Unable to get authenticated user: "@
                        + dotted(crate::decode::user_err_path(v))
                    && d.original_response == Some(b.text)
            },
        },
        Err(code) => r matches Err(ApiError::Transport(t))
            && t.kind == me_status_kind(code)
            && t.message@ == me_status_message(code),
    }
}

/// Turns the outcome of the signed-in user fetch into a typed user or a
/// classified error.
pub fn me_response(outcome: Result<RawBody, u16>) -> (r: Result<User, ApiError>)
    ensures
        me_response_spec(outcome, r),
{
    match outcome {
        Ok(body) => {
            let RawBody { text, json } = body;
            match json {
                Some(v) => match crate::decode::decode_user(&v) {
                    Ok(u) => Ok(u),
                    Err(e) => Err(
                        ApiError::Deserialize(
                            deser_error("Unable to get authenticated user: ", e, text),
                        ),
                    ),
                },
                None => Err(
                    ApiError::Deserialize(
                        invalid_json_error("Unable to get authenticated user: ", text),
                    ),
                ),
            }
        },
        Err(code) => {
            if code == 401 {
                Err(
                    ApiError::Transport(
                        transport(TransportErrorKind::Unauthorized, "Authentication required"),
                    ),
                )
            } else if code == 403 {
                Err(ApiError::Transport(transport(TransportErrorKind::Forbidden, "Forbidden")))
            } else {
                Err(ApiError::Transport(unhandled(code)))
            }
        },
    }
}

/// The message of a repository list fetch failure: every failing status is
/// reported as unhandled, with the listing endpoint's own fallback wording.
pub open spec fn repos_status_message(code: u16) -> Seq<char> {
    "Unhandled status code: "@ + dec_str(code as nat)
}

/// What `repos_response` returns for each outcome.
pub open spec fn repos_response_spec(
    outcome: Result<RawBody, u16>,
    r: Result<Vec<Repo>, ApiError>,
) -> bool {
    match outcome {
        Ok(b) => match b.json {
            None => r matches Err(ApiError::Deserialize(d))
                && d.parse_error@ == "Unable to parse response: "@ + "invalid JSON"@
                && d.original_response == Some(b.text),
            Some(v) => if crate::decode::repos_wf(v) {
                r matches Ok(rs) && (v matches JsonValue::Arr(a) && rs@.len() == a@.len()
                    && (forall|i: int|
                        0 <= i < a@.len() ==> crate::decode::repo_matches(
                            #[trigger] a@[i],
                            rs@[i],
                        )))
            } else {
                r matches Err(ApiError::Deserialize(d))
                    && d.parse_error@ == "Unable to parse response: "@
                        + dotted(crate::decode::repos_err_path(v))
                    && d.original_response == Some(b.text)
            },
        },
        Err(code) => r matches Err(ApiError::Transport(t))
            && t.kind == TransportErrorKind::Unhandled
            && t.message@ == repos_status_message(code),
    }
}

/// Turns the outcome of a repository list fetch into typed repositories or
/// a classified error.
pub fn repos_response(outcome: Result<RawBody, u16>) -> (r: Result<Vec<Repo>, ApiError>)
    ensures
        repos_response_spec(outcome, r),
{
    match outcome {
        Ok(body) => {
            let RawBody { text, json } = body;
            match json {
                Some(v) => match crate::decode::decode_repos(&v) {
                    Ok(rs) => Ok(rs),
                    Err(e) => Err(
                        ApiError::Deserialize(deser_error("Unable to parse response: ", e, text)),
                    ),
                },
                None => Err(
                    ApiError::Deserialize(invalid_json_error("Unable to parse response: ", text)),
                ),
            }
        },
        Err(code) => Err(ApiError::Transport(unhandled_with("Unhandled status code: ", code))),
    }
}

/// The endpoint listing an account's repositories: the organization form,
/// or the user form when the account is a user.
pub fn ep_list_repos(owner: &str, is_user: bool) -> (r: String)
    ensures
        is_user ==> r@ == "users/"@ + owner@ + "/repos"@,
        !is_user ==> r@ == "orgs/"@ + owner@ + "/repos"@,
{
    let mut s = if is_user {
        "users/".to_owned()
    } else {
        "orgs/".to_owned()
    };
    s.append(owner);
    s.append("/repos");
    s
}

/// The endpoint of a single organization.
pub fn ep_org(org_name: &str) -> (r: String)
    ensures
        r@ == "orgs/"@ + org_name@,
{
    let mut s = "orgs/".to_owned();
    s.append(org_name);
    s
}

} // verus!
