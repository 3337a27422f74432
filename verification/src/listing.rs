//! Exchange types of the org/repo listing service, and the rows it serves.
//!
//! The listing service re-exposes organization and repository listings; the
//! functions here compute its response rows from already-fetched models.

use vstd::prelude::*;

use crate::models;

verus! {

/// Whether an account is a user or an organization.
#[derive(PartialEq, Eq, Structural, Clone, Copy, Debug)]
pub enum OrgType {
    User,
    Organization,
}

/// An account row.
pub struct Org {
    pub login: String,
    pub org_type: OrgType,
}

/// A request naming an account.
pub struct OrgRequest {
    pub login: String,
}

/// The query of a repository-listing request: which kind of account the
/// name denotes.
pub struct OrgInfo {
    pub org_type: OrgType,
}

/// A served account row.
pub struct OrgResponse {
    pub login: String,
    pub org_type: OrgType,
}

impl OrgResponse {
    /// The served row of an account.
    pub fn of(org: Org) -> (r: OrgResponse)
        ensures
            r.login == org.login,
            r.org_type == org.org_type,
    {
        OrgResponse { login: org.login, org_type: org.org_type }
    }
}

/// A repository row.
pub struct Repo {
    pub name: String,
}

/// A served repository row.
pub struct RepoResponse {
    pub name: String,
}

impl RepoResponse {
    /// The served row of a repository.
    pub fn of(repo: Repo) -> (r: RepoResponse)
        ensures
            r.name == repo.name,
    {
        RepoResponse { name: repo.name }
    }
}

/// The account overview: every fetched organization as a row, and the
/// signed-in user, when known, first.
pub fn org_overview(orgs: &Vec<models::Org>, me: Option<models::User>) -> (r: Vec<OrgResponse>)
    ensures
        match me {
            Some(user) => r@.len() == orgs@.len() + 1 && r@[0].login == user.login && r@[0].org_type
                == OrgType::User && (forall|i: int|
                0 <= i < orgs@.len() ==> ((#[trigger] r@[i + 1]).login == orgs@[i].login && r@[i
                    + 1].org_type == OrgType::Organization)),
            None => r@.len() == orgs@.len() && (forall|i: int|
                0 <= i < orgs@.len() ==> ((#[trigger] r@[i]).login == orgs@[i].login && r@[i].org_type
                    == OrgType::Organization)),
        },
{
    let n = orgs.len();
    let mut rows: Vec<OrgResponse> = Vec::new();
    let mut i: usize = 0;
    while i < n
        invariant
            n == orgs@.len(),
            i <= n,
            rows@.len() == i,
            forall|k: int|
                0 <= k < i ==> ((#[trigger] rows@[k]).login == orgs@[k].login && rows@[k].org_type
                    == OrgType::Organization),
        decreases n - i,
    {
        let login = orgs[i].login.clone();
        rows.push(OrgResponse { login, org_type: OrgType::Organization });
        i += 1;
    }
    match me {
        Some(user) => {
            rows.insert(0, OrgResponse { login: user.login, org_type: OrgType::User });
            rows
        },
        None => rows,
    }
}

/// The served rows of a repository listing.
pub fn repo_responses(repos: &Vec<models::Repo>) -> (r: Vec<RepoResponse>)
    ensures
        r@.len() == repos@.len(),
        forall|i: int| 0 <= i < repos@.len() ==> (#[trigger] r@[i]).name == repos@[i].name,
{
    let n = repos.len();
    let mut rows: Vec<RepoResponse> = Vec::new();
    let mut i: usize = 0;
    while i < n
        invariant
            n == repos@.len(),
            i <= n,
            rows@.len() == i,
            forall|k: int| 0 <= k < i ==> (#[trigger] rows@[k]).name == repos@[k].name,
        decreases n - i,
    {
        let name = repos[i].name.clone();
        rows.push(RepoResponse { name });
        i += 1;
    }
    rows
}

/// The account row of a lookup that tried the name as an organization and
/// fell back to the signed-in user.
pub fn org_or_user_response(org: Option<models::Org>, me: Option<models::User>) -> (r: Option<
    OrgResponse,
>)
    ensures
        match org {
            Some(o) => r matches Some(row) && row.login == o.login && row.org_type
                == OrgType::Organization,
            None => match me {
                Some(user) => r matches Some(row) && row.login == user.login && row.org_type
                    == OrgType::User,
                None => r is None,
            },
        },
{
    match org {
        Some(o) => Some(OrgResponse { login: o.login, org_type: OrgType::Organization }),
        None => match me {
            Some(user) => Some(OrgResponse { login: user.login, org_type: OrgType::User }),
            None => None,
        },
    }
}

} // verus!
