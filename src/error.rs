//! The failures that a request can end in.
use vstd::prelude::*;

verus! {

/// Why a request produced no usable result.
#[derive(Debug, Clone, PartialEq, Eq)]
pub enum ClientError {
    /// Status 401: the credentials are invalid or lack a scope.
    Unauthorized,
    /// Status 403: the token lacks the scope that the resource needs.
    Forbidden,
    /// Status 404: no such resource.
    NotFound,
    /// Any status that no other rule covers.
    UnexpectedStatus(u16),
    /// Status 200 without a body.
    EmptyBody,
    /// The body was not UTF-8 JSON, or not of the expected shape.
    DecodeFailure(String),
    /// The request could not be formed or carried.
    TransportFailure(String),
}

/// A failed command: the status code, if a response came, and a text to help the user.
#[derive(Debug, Clone, PartialEq, Eq)]
pub struct GithubError {
    pub status_code: Option<u16>,
    pub help_str: Option<String>,
}

/// How a command failure is shown: the help text where there is no status code,
/// otherwise which of the two parts are present.
pub open spec fn github_error_text(e: GithubError) -> Seq<char> {
    match (e.status_code, e.help_str) {
        (None, None) => "(None, None)"@,
        (Some(_), None) => "(Some(code), None)"@,
        (Some(_), Some(_)) => "(Some(code), Some(help_str))"@,
        (None, Some(h)) => h@,
    }
}

impl GithubError {
    /// The text that the command line prints for this failure.
    pub fn message(&self) -> (r: String)
        ensures
            r@ == github_error_text(*self),
    {
        match (&self.status_code, &self.help_str) {
            (None, None) => String::from_str("(None, None)"),
            (Some(_), None) => String::from_str("(Some(code), None)"),
            (Some(_), Some(_)) => String::from_str("(Some(code), Some(help_str))"),
            (None, Some(h)) => h.clone(),
        }
    }
}

} // verus!
