//! Schema decoders: from a `JsonValue` tree to the typed models.
//!
//! Every decoder reports failure with the exact path of the first field, in
//! declaration order, that is missing or has the wrong shape, so that schema
//! drift in the forge's responses is actionable.  Fields the models do not
//! carry are ignored, which keeps the decoders tolerant of fields the forge
//! adds over time.

use vstd::prelude::*;

use crate::json::{bool_field, field_of, str_field, uint_field, JsonValue};
use crate::models::{
    Branch, CommitsComparison, CompareStatus, DeleteReference, GithubGitPointer,
    GithubPullRequestState, Org, PullRequest, PullRequestMergeStatus, Reference, ReferenceObject,
    ReferenceType, Repo, User,
};

verus! {

/// A schema mismatch: the path of the first offending field, outermost
/// segment first.  An array index appears as its decimal rendering.
#[derive(Debug)]
pub struct DecodeError {
    pub path: Vec<String>,
}

/// A one-segment path.
fn err_at(name: &str) -> (r: DecodeError)
    ensures
        r.path.deep_view() == seq![name@],
{
    let mut path: Vec<String> = Vec::new();
    path.push(name.to_owned());
    proof {
        assert(path.deep_view() =~= seq![name@]);
    }
    DecodeError { path }
}

/// The same path, one segment deeper.
fn prefix(name: &str, e: DecodeError) -> (r: DecodeError)
    ensures
        r.path.deep_view() == seq![name@] + e.path.deep_view(),
{
    let ghost inner = e.path@;
    let mut path: Vec<String> = Vec::new();
    path.push(name.to_owned());
    let mut rest = e.path;
    path.append(&mut rest);
    proof {
        let dv = path.deep_view();
        let target = seq![name@] + Seq::new(inner.len(), |i: int| inner[i]@);
        assert forall|i: int| 0 <= i < dv.len() implies dv[i] == target[i] by {
            if i > 0 {
                assert(path@[i] == inner[i - 1]);
            }
        }
        assert(dv =~= target);
    }
    DecodeError { path }
}

/// A required string member.
fn req_str(v: &JsonValue, name: &str) -> (r: Result<String, DecodeError>)
    ensures
        r is Ok <==> str_field(*v, name@) is Some,
        r matches Ok(s) ==> str_field(*v, name@) == Some(s@),
        r matches Err(e) ==> e.path.deep_view() == seq![name@],
{
    match v.get(name) {
        Some(f) => match f {
            JsonValue::Str(s) => Ok(s.clone()),
            _ => Err(err_at(name)),
        },
        None => Err(err_at(name)),
    }
}

/// A required boolean member.
fn req_bool(v: &JsonValue, name: &str) -> (r: Result<bool, DecodeError>)
    ensures
        r is Ok <==> bool_field(*v, name@) is Some,
        r matches Ok(b) ==> bool_field(*v, name@) == Some(b),
        r matches Err(e) ==> e.path.deep_view() == seq![name@],
{
    match v.get(name) {
        Some(f) => match f {
            JsonValue::Bool(b) => Ok(*b),
            _ => Err(err_at(name)),
        },
        None => Err(err_at(name)),
    }
}

/// A required unsigned-integer member.
fn req_uint(v: &JsonValue, name: &str) -> (r: Result<u64, DecodeError>)
    ensures
        r is Ok <==> uint_field(*v, name@) is Some,
        r matches Ok(n) ==> uint_field(*v, name@) == Some(n),
        r matches Err(e) ==> e.path.deep_view() == seq![name@],
{
    match v.get(name) {
        Some(f) => match f {
            JsonValue::UInt(n) => Ok(*n),
            _ => Err(err_at(name)),
        },
        None => Err(err_at(name)),
    }
}

/// Whether an optional boolean member is acceptable: absent, null, or a
/// boolean.
pub open spec fn opt_bool_ok(v: JsonValue, name: Seq<char>) -> bool {
    match field_of(v, name) {
        Some(JsonValue::Bool(_)) => true,
        Some(JsonValue::Null) => true,
        Some(_) => false,
        None => true,
    }
}

/// The value of an optional boolean member: present only when the member is
/// present and a boolean.
pub open spec fn opt_bool_val(v: JsonValue, name: Seq<char>) -> Option<bool> {
    match field_of(v, name) {
        Some(JsonValue::Bool(b)) => Some(b),
        _ => None,
    }
}

/// An optional boolean member; null and absence both read as absent.
fn opt_bool(v: &JsonValue, name: &str) -> (r: Result<Option<bool>, DecodeError>)
    ensures
        r is Ok <==> opt_bool_ok(*v, name@),
        r matches Ok(b) ==> b == opt_bool_val(*v, name@),
        r matches Err(e) ==> e.path.deep_view() == seq![name@],
{
    match v.get(name) {
        Some(f) => match f {
            JsonValue::Bool(b) => Ok(Some(*b)),
            JsonValue::Null => Ok(None),
            _ => Err(err_at(name)),
        },
        None => Ok(None),
    }
}

/// Well-formedness of a repository body.
pub open spec fn repo_wf(v: JsonValue) -> bool {
    &&& str_field(v, "name"@) is Some
    &&& (field_of(v, "owner"@) matches Some(o) && str_field(o, "login"@) is Some)
    &&& bool_field(v, "private"@) is Some
    &&& bool_field(v, "fork"@) is Some
}

/// The repository `r` reads exactly the fields of `v`.
pub open spec fn repo_matches(v: JsonValue, r: Repo) -> bool {
    &&& str_field(v, "name"@) == Some(r.name@)
    &&& (field_of(v, "owner"@) matches Some(o) && str_field(o, "login"@) == Some(r.owner_login@))
    &&& bool_field(v, "private"@) == Some(r.private)
    &&& bool_field(v, "fork"@) == Some(r.fork)
}

/// The first offending field of an ill-formed repository body.
pub open spec fn repo_err_path(v: JsonValue) -> Seq<Seq<char>> {
    if str_field(v, "name"@) is None {
        seq!["name"@]
    } else if field_of(v, "owner"@) is None {
        seq!["owner"@]
    } else if !(field_of(v, "owner"@) matches Some(o) && str_field(o, "login"@) is Some) {
        seq!["owner"@, "login"@]
    } else if bool_field(v, "private"@) is None {
        seq!["private"@]
    } else {
        seq!["fork"@]
    }
}

/// Decodes a repository.
pub fn decode_repo(v: &JsonValue) -> (r: Result<Repo, DecodeError>)
    ensures
        r is Ok <==> repo_wf(*v),
        r matches Ok(repo) ==> repo_matches(*v, repo),
        r matches Err(e) ==> e.path.deep_view() == repo_err_path(*v),
{
    let name = match req_str(v, "name") {
        Ok(s) => s,
        Err(e) => {
            return Err(e);
        },
    };
    let owner_login = match v.get("owner") {
        Some(o) => match req_str(o, "login") {
            Ok(s) => s,
            Err(e) => {
                return Err(prefix("owner", e));
            },
        },
        None => {
            return Err(err_at("owner"));
        },
    };
    let private = match req_bool(v, "private") {
        Ok(b) => b,
        Err(e) => {
            return Err(e);
        },
    };
    let fork = match req_bool(v, "fork") {
        Ok(b) => b,
        Err(e) => {
            return Err(e);
        },
    };
    Ok(Repo { name, owner_login, private, fork })
}

/// Well-formedness of one end of a pull request.
pub open spec fn pointer_wf(v: JsonValue) -> bool {
    &&& str_field(v, "label"@) is Some
    &&& str_field(v, "ref"@) is Some
    &&& str_field(v, "sha"@) is Some
}

/// The pointer `p` reads exactly the fields of `v`.
pub open spec fn pointer_matches(v: JsonValue, p: GithubGitPointer) -> bool {
    &&& str_field(v, "label"@) == Some(p.label@)
    &&& str_field(v, "ref"@) == Some(p.reference@)
    &&& str_field(v, "sha"@) == Some(p.sha@)
}

/// The first offending field of an ill-formed pointer body.
pub open spec fn pointer_err_path(v: JsonValue) -> Seq<Seq<char>> {
    if str_field(v, "label"@) is None {
        seq!["label"@]
    } else if str_field(v, "ref"@) is None {
        seq!["ref"@]
    } else {
        seq!["sha"@]
    }
}

/// Decodes one end of a pull request.
pub fn decode_pointer(v: &JsonValue) -> (r: Result<GithubGitPointer, DecodeError>)
    ensures
        r is Ok <==> pointer_wf(*v),
        r matches Ok(p) ==> pointer_matches(*v, p),
        r matches Err(e) ==> e.path.deep_view() == pointer_err_path(*v),
{
    let label = match req_str(v, "label") {
        Ok(s) => s,
        Err(e) => {
            return Err(e);
        },
    };
    let reference = match req_str(v, "ref") {
        Ok(s) => s,
        Err(e) => {
            return Err(e);
        },
    };
    let sha = match req_str(v, "sha") {
        Ok(s) => s,
        Err(e) => {
            return Err(e);
        },
    };
    Ok(GithubGitPointer { label, reference, sha })
}

/// The two lifecycle states a pull request body may carry.
pub open spec fn pull_state_wf(s: Seq<char>) -> bool {
    s == "open"@ || s == "closed"@
}

/// The state named by `s`.
pub open spec fn pull_state_of(s: Seq<char>) -> GithubPullRequestState {
    if s == "open"@ {
        GithubPullRequestState::Open
    } else {
        GithubPullRequestState::Closed
    }
}

/// Well-formedness of a pull request body.
pub open spec fn pull_wf(v: JsonValue) -> bool {
    &&& uint_field(v, "number"@) is Some
    &&& (str_field(v, "state"@) matches Some(s) && pull_state_wf(s))
    &&& str_field(v, "title"@) is Some
    &&& (field_of(v, "head"@) matches Some(h) && pointer_wf(h))
    &&& (field_of(v, "base"@) matches Some(b) && pointer_wf(b))
    &&& bool_field(v, "draft"@) is Some
    &&& opt_bool_ok(v, "merged"@)
    &&& opt_bool_ok(v, "mergeable"@)
}

/// The pull request `p` reads exactly the fields of `v`.
pub open spec fn pull_matches(v: JsonValue, p: PullRequest) -> bool {
    &&& uint_field(v, "number"@) == Some(p.number)
    &&& (str_field(v, "state"@) matches Some(s) && p.state == pull_state_of(s))
    &&& str_field(v, "title"@) == Some(p.title@)
    &&& (field_of(v, "head"@) matches Some(h) && pointer_matches(h, p.head))
    &&& (field_of(v, "base"@) matches Some(b) && pointer_matches(b, p.base))
    &&& bool_field(v, "draft"@) == Some(p.draft)
    &&& p.merged == opt_bool_val(v, "merged"@)
    &&& p.mergeable == opt_bool_val(v, "mergeable"@)
}

/// The first offending field of an ill-formed pull request body.
pub open spec fn pull_err_path(v: JsonValue) -> Seq<Seq<char>> {
    if uint_field(v, "number"@) is None {
        seq!["number"@]
    } else if !(str_field(v, "state"@) matches Some(s) && pull_state_wf(s)) {
        seq!["state"@]
    } else if str_field(v, "title"@) is None {
        seq!["title"@]
    } else {
        match field_of(v, "head"@) {
            None => seq!["head"@],
            Some(h) => if !pointer_wf(h) {
                seq!["head"@] + pointer_err_path(h)
            } else {
                match field_of(v, "base"@) {
                    None => seq!["base"@],
                    Some(b) => if !pointer_wf(b) {
                        seq!["base"@] + pointer_err_path(b)
                    } else if bool_field(v, "draft"@) is None {
                        seq!["draft"@]
                    } else if !opt_bool_ok(v, "merged"@) {
                        seq!["merged"@]
                    } else {
                        seq!["mergeable"@]
                    },
                }
            },
        }
    }
}

/// Decodes a pull request.
pub fn decode_pull(v: &JsonValue) -> (r: Result<PullRequest, DecodeError>)
    ensures
        r is Ok <==> pull_wf(*v),
        r matches Ok(p) ==> pull_matches(*v, p),
        r matches Err(e) ==> e.path.deep_view() == pull_err_path(*v),
{
    let number = match req_uint(v, "number") {
        Ok(n) => n,
        Err(e) => {
            return Err(e);
        },
    };
    let state_text = match req_str(v, "state") {
        Ok(s) => s,
        Err(e) => {
            return Err(e);
        },
    };
    let state = if crate::json::str_eq(state_text.as_str(), "open") {
        GithubPullRequestState::Open
    } else if crate::json::str_eq(state_text.as_str(), "closed") {
        GithubPullRequestState::Closed
    } else {
        return Err(err_at("state"));
    };
    let title = match req_str(v, "title") {
        Ok(s) => s,
        Err(e) => {
            return Err(e);
        },
    };
    let head = match v.get("head") {
        Some(h) => match decode_pointer(h) {
            Ok(p) => p,
            Err(e) => {
                return Err(prefix("head", e));
            },
        },
        None => {
            return Err(err_at("head"));
        },
    };
    let base = match v.get("base") {
        Some(b) => match decode_pointer(b) {
            Ok(p) => p,
            Err(e) => {
                return Err(prefix("base", e));
            },
        },
        None => {
            return Err(err_at("base"));
        },
    };
    let draft = match req_bool(v, "draft") {
        Ok(b) => b,
        Err(e) => {
            return Err(e);
        },
    };
    let merged = match opt_bool(v, "merged") {
        Ok(b) => b,
        Err(e) => {
            return Err(e);
        },
    };
    let mergeable = match opt_bool(v, "mergeable") {
        Ok(b) => b,
        Err(e) => {
            return Err(e);
        },
    };
    Ok(PullRequest { number, state, title, head, base, draft, merged, mergeable })
}

/// The four comparison statuses the forge reports.
pub open spec fn status_wf(s: Seq<char>) -> bool {
    s == "ahead"@ || s == "behind"@ || s == "diverged"@ || s == "identical"@
}

/// The comparison status named by `s`.
pub open spec fn status_of(s: Seq<char>) -> CompareStatus {
    if s == "ahead"@ {
        CompareStatus::Ahead
    } else if s == "behind"@ {
        CompareStatus::Behind
    } else if s == "diverged"@ {
        CompareStatus::Diverged
    } else {
        CompareStatus::Identical
    }
}

/// Well-formedness of a branch comparison body.
pub open spec fn comparison_wf(v: JsonValue) -> bool {
    str_field(v, "status"@) matches Some(s) && status_wf(s)
}

/// The comparison `c` reads exactly the status of `v`.
pub open spec fn comparison_matches(v: JsonValue, c: CommitsComparison) -> bool {
    str_field(v, "status"@) matches Some(s) && c.status == status_of(s)
}

/// Decodes a branch comparison.
pub fn decode_comparison(v: &JsonValue) -> (r: Result<CommitsComparison, DecodeError>)
    ensures
        r is Ok <==> comparison_wf(*v),
        r matches Ok(c) ==> comparison_matches(*v, c),
        r matches Err(e) ==> e.path.deep_view() == seq!["status"@],
{
    let text = match req_str(v, "status") {
        Ok(s) => s,
        Err(e) => {
            return Err(e);
        },
    };
    let status = if crate::json::str_eq(text.as_str(), "ahead") {
        CompareStatus::Ahead
    } else if crate::json::str_eq(text.as_str(), "behind") {
        CompareStatus::Behind
    } else if crate::json::str_eq(text.as_str(), "diverged") {
        CompareStatus::Diverged
    } else if crate::json::str_eq(text.as_str(), "identical") {
        CompareStatus::Identical
    } else {
        return Err(err_at("status"));
    };
    Ok(CommitsComparison { status })
}

/// The two object kinds a git reference may point to.
pub open spec fn ref_type_wf(s: Seq<char>) -> bool {
    s == "commit"@ || s == "branch"@
}

/// The object kind named by `s`.
pub open spec fn ref_type_of(s: Seq<char>) -> ReferenceType {
    if s == "commit"@ {
        ReferenceType::Commit
    } else {
        ReferenceType::Branch
    }
}

/// Well-formedness of a git reference body.
pub open spec fn reference_wf(v: JsonValue) -> bool {
    &&& str_field(v, "ref"@) is Some
    &&& (field_of(v, "object"@) matches Some(o) && (str_field(o, "type"@) matches Some(t)
        && ref_type_wf(t)) && str_field(o, "sha"@) is Some)
}

/// The reference `r` reads exactly the fields of `v`.
pub open spec fn reference_matches(v: JsonValue, r: Reference) -> bool {
    &&& str_field(v, "ref"@) == Some(r.reference@)
    &&& (field_of(v, "object"@) matches Some(o) && (str_field(o, "type"@) matches Some(t)
        && r.object.reference_type == ref_type_of(t)) && str_field(o, "sha"@) == Some(
        r.object.sha@,
    ))
}

/// The first offending field of an ill-formed reference body.
pub open spec fn reference_err_path(v: JsonValue) -> Seq<Seq<char>> {
    if str_field(v, "ref"@) is None {
        seq!["ref"@]
    } else {
        match field_of(v, "object"@) {
            None => seq!["object"@],
            Some(o) => if !(str_field(o, "type"@) matches Some(t) && ref_type_wf(t)) {
                seq!["object"@, "type"@]
            } else {
                seq!["object"@, "sha"@]
            },
        }
    }
}

/// Decodes a git reference.
pub fn decode_reference(v: &JsonValue) -> (r: Result<Reference, DecodeError>)
    ensures
        r is Ok <==> reference_wf(*v),
        r matches Ok(reference) ==> reference_matches(*v, reference),
        r matches Err(e) ==> e.path.deep_view() == reference_err_path(*v),
{
    let name = match req_str(v, "ref") {
        Ok(s) => s,
        Err(e) => {
            return Err(e);
        },
    };
    let object = match v.get("object") {
        Some(o) => {
            let type_text = match req_str(o, "type") {
                Ok(s) => s,
                Err(e) => {
                    return Err(prefix("object", e));
                },
            };
            let reference_type = if crate::json::str_eq(type_text.as_str(), "commit") {
                ReferenceType::Commit
            } else if crate::json::str_eq(type_text.as_str(), "branch") {
                ReferenceType::Branch
            } else {
                return Err(prefix("object", err_at("type")));
            };
            let sha = match req_str(o, "sha") {
                Ok(s) => s,
                Err(e) => {
                    return Err(prefix("object", e));
                },
            };
            ReferenceObject { reference_type, sha }
        },
        None => {
            return Err(err_at("object"));
        },
    };
    Ok(Reference { reference: name, object })
}

/// Well-formedness of a merge outcome body.
pub open spec fn merge_status_wf(v: JsonValue) -> bool {
    &&& str_field(v, "sha"@) is Some
    &&& bool_field(v, "merged"@) is Some
    &&& str_field(v, "message"@) is Some
}

/// The merge outcome `m` reads exactly the fields of `v`.
pub open spec fn merge_status_matches(v: JsonValue, m: PullRequestMergeStatus) -> bool {
    &&& str_field(v, "sha"@) == Some(m.sha@)
    &&& bool_field(v, "merged"@) == Some(m.merged)
    &&& str_field(v, "message"@) == Some(m.message@)
}

/// The first offending field of an ill-formed merge outcome body.
pub open spec fn merge_status_err_path(v: JsonValue) -> Seq<Seq<char>> {
    if str_field(v, "sha"@) is None {
        seq!["sha"@]
    } else if bool_field(v, "merged"@) is None {
        seq!["merged"@]
    } else {
        seq!["message"@]
    }
}

/// Decodes a merge outcome.
pub fn decode_merge_status(v: &JsonValue) -> (r: Result<PullRequestMergeStatus, DecodeError>)
    ensures
        r is Ok <==> merge_status_wf(*v),
        r matches Ok(m) ==> merge_status_matches(*v, m),
        r matches Err(e) ==> e.path.deep_view() == merge_status_err_path(*v),
{
    let sha = match req_str(v, "sha") {
        Ok(s) => s,
        Err(e) => {
            return Err(e);
        },
    };
    let merged = match req_bool(v, "merged") {
        Ok(b) => b,
        Err(e) => {
            return Err(e);
        },
    };
    let message = match req_str(v, "message") {
        Ok(s) => s,
        Err(e) => {
            return Err(e);
        },
    };
    Ok(PullRequestMergeStatus { sha, merged, message })
}

/// Decodes the (empty) body answering a reference creation or deletion: any
/// object is accepted.
pub fn decode_delete_reference(v: &JsonValue) -> (r: Result<DeleteReference, DecodeError>)
    ensures
        r is Ok <==> *v is Obj,
        r matches Err(e) ==> e.path.deep_view() == Seq::<Seq<char>>::empty(),
{
    match v {
        JsonValue::Obj(_) => Ok(DeleteReference {  }),
        _ => {
            let path: Vec<String> = Vec::new();
            proof {
                assert(path.deep_view() =~= Seq::<Seq<char>>::empty());
            }
            Err(DecodeError { path })
        },
    }
}

/// Well-formedness of a branch body.
pub open spec fn branch_wf(v: JsonValue) -> bool {
    &&& str_field(v, "name"@) is Some
    &&& (field_of(v, "commit"@) matches Some(c) && str_field(c, "sha"@) is Some)
    &&& bool_field(v, "protected"@) is Some
}

/// The branch `b` reads exactly the fields of `v`.
pub open spec fn branch_matches(v: JsonValue, b: Branch) -> bool {
    &&& str_field(v, "name"@) == Some(b.name@)
    &&& (field_of(v, "commit"@) matches Some(c) && str_field(c, "sha"@) == Some(b.sha@))
    &&& bool_field(v, "protected"@) == Some(b.protected)
}

/// The first offending field of an ill-formed branch body.
pub open spec fn branch_err_path(v: JsonValue) -> Seq<Seq<char>> {
    if str_field(v, "name"@) is None {
        seq!["name"@]
    } else if field_of(v, "commit"@) is None {
        seq!["commit"@]
    } else if !(field_of(v, "commit"@) matches Some(c) && str_field(c, "sha"@) is Some) {
        seq!["commit"@, "sha"@]
    } else {
        seq!["protected"@]
    }
}

/// Decodes a branch.
pub fn decode_branch(v: &JsonValue) -> (r: Result<Branch, DecodeError>)
    ensures
        r is Ok <==> branch_wf(*v),
        r matches Ok(b) ==> branch_matches(*v, b),
        r matches Err(e) ==> e.path.deep_view() == branch_err_path(*v),
{
    let name = match req_str(v, "name") {
        Ok(s) => s,
        Err(e) => {
            return Err(e);
        },
    };
    let sha = match v.get("commit") {
        Some(c) => match req_str(c, "sha") {
            Ok(s) => s,
            Err(e) => {
                return Err(prefix("commit", e));
            },
        },
        None => {
            return Err(err_at("commit"));
        },
    };
    let protected = match req_bool(v, "protected") {
        Ok(b) => b,
        Err(e) => {
            return Err(e);
        },
    };
    Ok(Branch { name, sha, protected })
}

/// The same path, one segment deeper, for an already rendered segment.
fn prefix_rendered(seg: String, e: DecodeError) -> (r: DecodeError)
    ensures
        r.path.deep_view() == seq![seg@] + e.path.deep_view(),
{
    let ghost inner = e.path@;
    let mut path: Vec<String> = Vec::new();
    let ghost seg_view = seg@;
    path.push(seg);
    let mut rest = e.path;
    path.append(&mut rest);
    proof {
        let dv = path.deep_view();
        let target = seq![seg_view] + Seq::new(inner.len(), |i: int| inner[i]@);
        assert forall|i: int| 0 <= i < dv.len() implies dv[i] == target[i] by {
            if i > 0 {
                assert(path@[i] == inner[i - 1]);
            }
        }
        assert(dv =~= target);
    }
    DecodeError { path }
}

/// The index of the first element of `arr` that is not a well-formed branch
/// body; `arr.len()` when all are.
pub open spec fn branches_first_bad(arr: Seq<JsonValue>) -> int
    decreases arr.len(),
{
    if arr.len() == 0 {
        0
    } else if !branch_wf(arr[0]) {
        0
    } else {
        1 + branches_first_bad(arr.drop_first())
    }
}

proof fn lemma_branches_first_bad(arr: Seq<JsonValue>, i: int)
    requires
        0 <= i < arr.len(),
        forall|j: int| 0 <= j < i ==> branch_wf(#[trigger] arr[j]),
        !branch_wf(arr[i]),
    ensures
        branches_first_bad(arr) == i,
    decreases i,
{
    if i > 0 {
        lemma_branches_first_bad(arr.drop_first(), i - 1);
    }
}

/// Well-formedness of a branch list body.
pub open spec fn branches_wf(v: JsonValue) -> bool {
    v matches JsonValue::Arr(a) && (forall|i: int|
        0 <= i < a@.len() ==> branch_wf(#[trigger] a@[i]))
}

/// The first offending field of an ill-formed branch list body.
pub open spec fn branches_err_path(v: JsonValue) -> Seq<Seq<char>> {
    match v {
        JsonValue::Arr(a) => {
            let i = branches_first_bad(a@);
            seq![crate::decimal::dec_str(i as nat)] + branch_err_path(a@[i])
        },
        _ => Seq::<Seq<char>>::empty(),
    }
}

/// Decodes a branch list.
pub fn decode_branches(v: &JsonValue) -> (r: Result<Vec<Branch>, DecodeError>)
    ensures
        r is Ok <==> branches_wf(*v),
        r matches Ok(bs) ==> (*v matches JsonValue::Arr(a) && bs@.len() == a@.len() && (forall|
            i: int,
        |
            0 <= i < a@.len() ==> branch_matches(#[trigger] a@[i], bs@[i]))),
        r matches Err(e) ==> e.path.deep_view() == branches_err_path(*v),
{
    match v {
        JsonValue::Arr(items) => {
            let n = items.len();
            let mut out: Vec<Branch> = Vec::new();
            let mut i: usize = 0;
            while i < n
                invariant
                    *v == JsonValue::Arr(*items),
                    n == items@.len(),
                    i <= n,
                    out@.len() == i,
                    forall|j: int| 0 <= j < i ==> branch_wf(#[trigger] items@[j]),
                    forall|j: int|
                        0 <= j < i ==> branch_matches(#[trigger] items@[j], out@[j]),
                decreases n - i,
            {
                match decode_branch(&items[i]) {
                    Ok(b) => {
                        out.push(b);
                    },
                    Err(e) => {
                        proof {
                            lemma_branches_first_bad(items@, i as int);
                        }
                        let seg = crate::decimal::u64_to_string(i as u64);
                        return Err(prefix_rendered(seg, e));
                    },
                }
                i += 1;
            }
            Ok(out)
        },
        _ => {
            let path: Vec<String> = Vec::new();
            proof {
                assert(path.deep_view() =~= Seq::<Seq<char>>::empty());
            }
            Err(DecodeError { path })
        },
    }
}

/// The index of the first element of `arr` that is not a well-formed pull
/// request body; `arr.len()` when all are.
pub open spec fn pulls_first_bad(arr: Seq<JsonValue>) -> int
    decreases arr.len(),
{
    if arr.len() == 0 {
        0
    } else if !pull_wf(arr[0]) {
        0
    } else {
        1 + pulls_first_bad(arr.drop_first())
    }
}

proof fn lemma_pulls_first_bad(arr: Seq<JsonValue>, i: int)
    requires
        0 <= i < arr.len(),
        forall|j: int| 0 <= j < i ==> pull_wf(#[trigger] arr[j]),
        !pull_wf(arr[i]),
    ensures
        pulls_first_bad(arr) == i,
    decreases i,
{
    if i > 0 {
        lemma_pulls_first_bad(arr.drop_first(), i - 1);
    }
}

/// Well-formedness of a pull request list body.
pub open spec fn pulls_wf(v: JsonValue) -> bool {
    v matches JsonValue::Arr(a) && (forall|i: int| 0 <= i < a@.len() ==> pull_wf(#[trigger] a@[i]))
}

/// The first offending field of an ill-formed pull request list body.
pub open spec fn pulls_err_path(v: JsonValue) -> Seq<Seq<char>> {
    match v {
        JsonValue::Arr(a) => {
            let i = pulls_first_bad(a@);
            seq![crate::decimal::dec_str(i as nat)] + pull_err_path(a@[i])
        },
        _ => Seq::<Seq<char>>::empty(),
    }
}

/// Decodes a pull request list.
pub fn decode_pulls(v: &JsonValue) -> (r: Result<Vec<PullRequest>, DecodeError>)
    ensures
        r is Ok <==> pulls_wf(*v),
        r matches Ok(ps) ==> (*v matches JsonValue::Arr(a) && ps@.len() == a@.len() && (forall|
            i: int,
        |
            0 <= i < a@.len() ==> pull_matches(#[trigger] a@[i], ps@[i]))),
        r matches Err(e) ==> e.path.deep_view() == pulls_err_path(*v),
{
    match v {
        JsonValue::Arr(items) => {
            let n = items.len();
            let mut out: Vec<PullRequest> = Vec::new();
            let mut i: usize = 0;
            while i < n
                invariant
                    *v == JsonValue::Arr(*items),
                    n == items@.len(),
                    i <= n,
                    out@.len() == i,
                    forall|j: int| 0 <= j < i ==> pull_wf(#[trigger] items@[j]),
                    forall|j: int| 0 <= j < i ==> pull_matches(#[trigger] items@[j], out@[j]),
                decreases n - i,
            {
                match decode_pull(&items[i]) {
                    Ok(p) => {
                        out.push(p);
                    },
                    Err(e) => {
                        proof {
                            lemma_pulls_first_bad(items@, i as int);
                        }
                        let seg = crate::decimal::u64_to_string(i as u64);
                        return Err(prefix_rendered(seg, e));
                    },
                }
                i += 1;
            }
            Ok(out)
        },
        _ => {
            let path: Vec<String> = Vec::new();
            proof {
                assert(path.deep_view() =~= Seq::<Seq<char>>::empty());
            }
            Err(DecodeError { path })
        },
    }
}


/// Whether an optional string member is acceptable: absent, null, or a
/// string.
pub open spec fn opt_str_ok(v: JsonValue, name: Seq<char>) -> bool {
    match field_of(v, name) {
        Some(JsonValue::Str(_)) => true,
        Some(JsonValue::Null) => true,
        Some(_) => false,
        None => true,
    }
}

/// The value of an optional string member: present only when the member is
/// present and a string.
pub open spec fn opt_str_val(v: JsonValue, name: Seq<char>) -> Option<Seq<char>> {
    match field_of(v, name) {
        Some(JsonValue::Str(s)) => Some(s@),
        _ => None,
    }
}

/// An optional string member; null and absence both read as absent.
fn opt_str(v: &JsonValue, name: &str) -> (r: Result<Option<String>, DecodeError>)
    ensures
        r is Ok <==> opt_str_ok(*v, name@),
        r matches Ok(s) ==> (match s {
            Some(text) => opt_str_val(*v, name@) == Some(text@),
            None => opt_str_val(*v, name@) is None,
        }),
        r matches Err(e) ==> e.path.deep_view() == seq![name@],
{
    match v.get(name) {
        Some(f) => match f {
            JsonValue::Str(s) => Ok(Some(s.clone())),
            JsonValue::Null => Ok(None),
            _ => Err(err_at(name)),
        },
        None => Ok(None),
    }
}

/// Well-formedness of an organization body.
pub open spec fn org_wf(v: JsonValue) -> bool {
    &&& str_field(v, "login"@) is Some
    &&& opt_str_ok(v, "name"@)
    &&& opt_str_ok(v, "description"@)
}

/// The organization `o` reads exactly the fields of `v`.
pub open spec fn org_matches(v: JsonValue, o: Org) -> bool {
    &&& str_field(v, "login"@) == Some(o.login@)
    &&& (match o.name {
        Some(text) => opt_str_val(v, "name"@) == Some(text@),
        None => opt_str_val(v, "name"@) is None,
    })
    &&& (match o.description {
        Some(text) => opt_str_val(v, "description"@) == Some(text@),
        None => opt_str_val(v, "description"@) is None,
    })
}

/// The first offending field of an ill-formed organization body.
pub open spec fn org_err_path(v: JsonValue) -> Seq<Seq<char>> {
    if str_field(v, "login"@) is None {
        seq!["login"@]
    } else if !opt_str_ok(v, "name"@) {
        seq!["name"@]
    } else {
        seq!["description"@]
    }
}

/// Decodes an organization.
pub fn decode_org(v: &JsonValue) -> (r: Result<Org, DecodeError>)
    ensures
        r is Ok <==> org_wf(*v),
        r matches Ok(o) ==> org_matches(*v, o),
        r matches Err(e) ==> e.path.deep_view() == org_err_path(*v),
{
    let login = match req_str(v, "login") {
        Ok(s) => s,
        Err(e) => {
            return Err(e);
        },
    };
    let name = match opt_str(v, "name") {
        Ok(s) => s,
        Err(e) => {
            return Err(e);
        },
    };
    let description = match opt_str(v, "description") {
        Ok(s) => s,
        Err(e) => {
            return Err(e);
        },
    };
    Ok(Org { login, name, description })
}

/// Well-formedness of a user body.
pub open spec fn user_wf(v: JsonValue) -> bool {
    &&& str_field(v, "login"@) is Some
    &&& bool_field(v, "site_admin"@) is Some
}

/// The user `u` reads exactly the fields of `v`.
pub open spec fn user_matches(v: JsonValue, u: User) -> bool {
    &&& str_field(v, "login"@) == Some(u.login@)
    &&& bool_field(v, "site_admin"@) == Some(u.site_admin)
}

/// The first offending field of an ill-formed user body.
pub open spec fn user_err_path(v: JsonValue) -> Seq<Seq<char>> {
    if str_field(v, "login"@) is None {
        seq!["login"@]
    } else {
        seq!["site_admin"@]
    }
}

/// Decodes a user.
pub fn decode_user(v: &JsonValue) -> (r: Result<User, DecodeError>)
    ensures
        r is Ok <==> user_wf(*v),
        r matches Ok(u) ==> user_matches(*v, u),
        r matches Err(e) ==> e.path.deep_view() == user_err_path(*v),
{
    let login = match req_str(v, "login") {
        Ok(s) => s,
        Err(e) => {
            return Err(e);
        },
    };
    let site_admin = match req_bool(v, "site_admin") {
        Ok(b) => b,
        Err(e) => {
            return Err(e);
        },
    };
    Ok(User { login, site_admin })
}

/// The index of the first element of `arr` that is not a well-formed
/// organization body; `arr.len()` when all are.
pub open spec fn orgs_first_bad(arr: Seq<JsonValue>) -> int
    decreases arr.len(),
{
    if arr.len() == 0 {
        0
    } else if !org_wf(arr[0]) {
        0
    } else {
        1 + orgs_first_bad(arr.drop_first())
    }
}

proof fn lemma_orgs_first_bad(arr: Seq<JsonValue>, i: int)
    requires
        0 <= i < arr.len(),
        forall|j: int| 0 <= j < i ==> org_wf(#[trigger] arr[j]),
        !org_wf(arr[i]),
    ensures
        orgs_first_bad(arr) == i,
    decreases i,
{
    if i > 0 {
        lemma_orgs_first_bad(arr.drop_first(), i - 1);
    }
}

/// Well-formedness of an organization list body.
pub open spec fn orgs_wf(v: JsonValue) -> bool {
    v matches JsonValue::Arr(a) && (forall|i: int| 0 <= i < a@.len() ==> org_wf(#[trigger] a@[i]))
}

/// The first offending field of an ill-formed organization list body.
pub open spec fn orgs_err_path(v: JsonValue) -> Seq<Seq<char>> {
    match v {
        JsonValue::Arr(a) => {
            let i = orgs_first_bad(a@);
            seq![crate::decimal::dec_str(i as nat)] + org_err_path(a@[i])
        },
        _ => Seq::<Seq<char>>::empty(),
    }
}

/// Decodes an organization list.
pub fn decode_orgs(v: &JsonValue) -> (r: Result<Vec<Org>, DecodeError>)
    ensures
        r is Ok <==> orgs_wf(*v),
        r matches Ok(os) ==> (*v matches JsonValue::Arr(a) && os@.len() == a@.len() && (forall|
            i: int,
        |
            0 <= i < a@.len() ==> org_matches(#[trigger] a@[i], os@[i]))),
        r matches Err(e) ==> e.path.deep_view() == orgs_err_path(*v),
{
    match v {
        JsonValue::Arr(items) => {
            let n = items.len();
            let mut out: Vec<Org> = Vec::new();
            let mut i: usize = 0;
            while i < n
                invariant
                    *v == JsonValue::Arr(*items),
                    n == items@.len(),
                    i <= n,
                    out@.len() == i,
                    forall|j: int| 0 <= j < i ==> org_wf(#[trigger] items@[j]),
                    forall|j: int| 0 <= j < i ==> org_matches(#[trigger] items@[j], out@[j]),
                decreases n - i,
            {
                match decode_org(&items[i]) {
                    Ok(o) => {
                        out.push(o);
                    },
                    Err(e) => {
                        proof {
                            lemma_orgs_first_bad(items@, i as int);
                        }
                        let seg = crate::decimal::u64_to_string(i as u64);
                        return Err(prefix_rendered(seg, e));
                    },
                }
                i += 1;
            }
            Ok(out)
        },
        _ => {
            let path: Vec<String> = Vec::new();
            proof {
                assert(path.deep_view() =~= Seq::<Seq<char>>::empty());
            }
            Err(DecodeError { path })
        },
    }
}

/// The index of the first element of `arr` that is not a well-formed
/// repository body; `arr.len()` when all are.
pub open spec fn repos_first_bad(arr: Seq<JsonValue>) -> int
    decreases arr.len(),
{
    if arr.len() == 0 {
        0
    } else if !repo_wf(arr[0]) {
        0
    } else {
        1 + repos_first_bad(arr.drop_first())
    }
}

proof fn lemma_repos_first_bad(arr: Seq<JsonValue>, i: int)
    requires
        0 <= i < arr.len(),
        forall|j: int| 0 <= j < i ==> repo_wf(#[trigger] arr[j]),
        !repo_wf(arr[i]),
    ensures
        repos_first_bad(arr) == i,
    decreases i,
{
    if i > 0 {
        lemma_repos_first_bad(arr.drop_first(), i - 1);
    }
}

/// Well-formedness of a repository list body.
pub open spec fn repos_wf(v: JsonValue) -> bool {
    v matches JsonValue::Arr(a) && (forall|i: int| 0 <= i < a@.len() ==> repo_wf(#[trigger] a@[i]))
}

/// The first offending field of an ill-formed repository list body.
pub open spec fn repos_err_path(v: JsonValue) -> Seq<Seq<char>> {
    match v {
        JsonValue::Arr(a) => {
            let i = repos_first_bad(a@);
            seq![crate::decimal::dec_str(i as nat)] + repo_err_path(a@[i])
        },
        _ => Seq::<Seq<char>>::empty(),
    }
}

/// Decodes a repository list.
pub fn decode_repos(v: &JsonValue) -> (r: Result<Vec<Repo>, DecodeError>)
    ensures
        r is Ok <==> repos_wf(*v),
        r matches Ok(rs) ==> (*v matches JsonValue::Arr(a) && rs@.len() == a@.len() && (forall|
            i: int,
        |
            0 <= i < a@.len() ==> repo_matches(#[trigger] a@[i], rs@[i]))),
        r matches Err(e) ==> e.path.deep_view() == repos_err_path(*v),
{
    match v {
        JsonValue::Arr(items) => {
            let n = items.len();
            let mut out: Vec<Repo> = Vec::new();
            let mut i: usize = 0;
            while i < n
                invariant
                    *v == JsonValue::Arr(*items),
                    n == items@.len(),
                    i <= n,
                    out@.len() == i,
                    forall|j: int| 0 <= j < i ==> repo_wf(#[trigger] items@[j]),
                    forall|j: int| 0 <= j < i ==> repo_matches(#[trigger] items@[j], out@[j]),
                decreases n - i,
            {
                match decode_repo(&items[i]) {
                    Ok(o) => {
                        out.push(o);
                    },
                    Err(e) => {
                        proof {
                            lemma_repos_first_bad(items@, i as int);
                        }
                        let seg = crate::decimal::u64_to_string(i as u64);
                        return Err(prefix_rendered(seg, e));
                    },
                }
                i += 1;
            }
            Ok(out)
        },
        _ => {
            let path: Vec<String> = Vec::new();
            proof {
                assert(path.deep_view() =~= Seq::<Seq<char>>::empty());
            }
            Err(DecodeError { path })
        },
    }
}

} // verus!
