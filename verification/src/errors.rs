//! Error taxonomy of the forge client.
//!
//! Two kinds of failure are distinguished: a transport failure, derived from
//! the HTTP status code of a response, and a deserialization failure, raised
//! when a response body does not have the expected shape.  A deserialization
//! failure carries the raw response body so that schema drift can be
//! diagnosed offline.

use vstd::prelude::*;

verus! {

/// Classification of a transport failure, derived from the HTTP status code
/// of the response.  Which codes map to which kind is chosen per endpoint by
/// the response handlers in `client`.
#[derive(PartialEq, Eq, Structural, Clone, Copy, Debug)]
pub enum TransportErrorKind {
    NotFound,
    Forbidden,
    Unauthorized,
    Validation,
    Unavailable,
    Internal,
    Unhandled,
}

/// A transport failure: the forge answered with a non-success status code.
#[derive(Debug)]
pub struct GithubAPIResponseError {
    pub kind: TransportErrorKind,
    pub message: String,
}

/// A deserialization failure: the forge answered successfully but the body
/// did not have the expected shape.  `original_response` keeps the raw body
/// for offline diagnosis.
#[derive(Debug)]
pub struct GithubAPIResponseDeserializeError {
    pub parse_error: String,
    pub original_response: Option<String>,
}

/// Uniform reporting capability over every error kind: a message, and an
/// optional raw diagnostic.
pub trait GithubAPIError {
    spec fn spec_message(&self) -> Seq<char>;

    spec fn spec_extra(&self) -> Option<Seq<char>>;

    fn error_message(&self) -> (r: String)
        ensures
            r@ == self.spec_message(),
    ;

    fn extra_info(&self) -> (r: Option<String>)
        ensures
            match r {
                Some(s) => self.spec_extra() == Some(s@),
                None => self.spec_extra() is None,
            },
    ;
}

impl GithubAPIError for GithubAPIResponseError {
    open spec fn spec_message(&self) -> Seq<char> {
        self.message@
    }

    open spec fn spec_extra(&self) -> Option<Seq<char>> {
        None
    }

    fn error_message(&self) -> (r: String) {
        self.message.clone()
    }

    fn extra_info(&self) -> (r: Option<String>) {
        None
    }
}

impl GithubAPIError for GithubAPIResponseDeserializeError {
    open spec fn spec_message(&self) -> Seq<char> {
        self.parse_error@
    }

    open spec fn spec_extra(&self) -> Option<Seq<char>> {
        match self.original_response {
            Some(body) => Some(body@),
            None => None,
        }
    }

    fn error_message(&self) -> (r: String) {
        self.parse_error.clone()
    }

    fn extra_info(&self) -> (r: Option<String>) {
        match &self.original_response {
            Some(body) => Some(body.clone()),
            None => None,
        }
    }
}

/// The closed union of failures an API operation can report.
#[derive(Debug)]
pub enum ApiError {
    Transport(GithubAPIResponseError),
    Deserialize(GithubAPIResponseDeserializeError),
}

impl GithubAPIError for ApiError {
    open spec fn spec_message(&self) -> Seq<char> {
        match self {
            ApiError::Transport(e) => e.spec_message(),
            ApiError::Deserialize(e) => e.spec_message(),
        }
    }

    open spec fn spec_extra(&self) -> Option<Seq<char>> {
        match self {
            ApiError::Transport(e) => e.spec_extra(),
            ApiError::Deserialize(e) => e.spec_extra(),
        }
    }

    fn error_message(&self) -> (r: String) {
        match self {
            ApiError::Transport(e) => e.error_message(),
            ApiError::Deserialize(e) => e.error_message(),
        }
    }

    fn extra_info(&self) -> (r: Option<String>) {
        match self {
            ApiError::Transport(e) => e.extra_info(),
            ApiError::Deserialize(e) => e.extra_info(),
        }
    }
}

} // verus!
