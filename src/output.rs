//! What the command line shows: error messages, and the rendering of responses.
use vstd::prelude::*;
use crate::decimal::{decimal_string, decimal_text};
use crate::error::{ClientError, GithubError};
use crate::json::{get, json_of_bytes, member_text, Json};
use crate::orgs::{decode_org_list, encode_org_list, format_org_table, org_list_of, org_table};
use crate::response::{classify, status_error, GitHubResponse, RawResponse};
use crate::table::{pad_right, padded, NEW_LINE};

verus! {

pub const UNAUTHORIZED: &'static str = "401 Unauthorized. Bad Credentials. See https://developer.github.com/v3";

pub const FORBIDDEN: &'static str = "403 Forbidden. Does your OAuth token have suffecient scope? A minimum of `user` or `read:org` is required. See https://developer.github.com/v3/orgs/";

pub const NOT_FOUND: &'static str = "404 Not Found. No such user or organization. See https://developer.github.com/v3";

pub const DESERIALIZE_ORG_SUMMARY: &'static str = "Error deserializing GitHub Organization Summary JSON.";

/// The reason phrase registered for a status code, if any.
pub uninterp spec fn status_reason(code: u16) -> Option<Seq<char>>;

/// Relies on hyper's StatusCode::from_u16 and canonical_reason: the reason phrase that
/// hyper registers for a code, which depends on the code alone.
#[verifier::external_body]
fn canonical_reason(code: u16) -> (r: Option<&'static str>)
    ensures
        r is None <==> status_reason(code) is None,
        r matches Some(s) ==> status_reason(code) == Some(s@),
{
    hyper::status::StatusCode::from_u16(code).canonical_reason()
}

/// A status as it is shown: the code, a space, and its reason phrase.
pub open spec fn status_line(code: u16) -> Seq<char> {
    decimal_text(code as nat) + " "@ + match status_reason(code) {
        Some(reason) => reason,
        None => "<unknown status code>"@,
    }
}

/// Shows a status code with its reason phrase.
pub fn status_text(code: u16) -> (r: String)
    ensures
        r@ == status_line(code),
{
    let mut r = decimal_string(code as u64);
    r.append(" ");
    match canonical_reason(code) {
        Some(reason) => r.append(reason),
        None => r.append("<unknown status code>"),
    }
    r
}

pub open spec fn unexpected_status_message(code: u16) -> Seq<char> {
    "Unexpected Http Response Code "@ + status_line(code)
}

pub open spec fn no_body_message() -> Seq<char> {
    "An unknown error occurred. GitHub responded with "@ + status_line(200) + ", but no string body was found."@
}

/// The message for an unexpected status.
pub fn unexpected_status_output(code: u16) -> (r: String)
    ensures
        r@ == unexpected_status_message(code),
{
    let mut r = String::from_str("Unexpected Http Response Code ");
    r.append(status_text(code).as_str());
    r
}

/// The message for a 200 response that came without a body.
pub fn build_200_ok_no_string_body_output() -> (r: String)
    ensures
        r@ == no_body_message(),
{
    let mut r = String::from_str("An unknown error occurred. GitHub responded with ");
    r.append(status_text(200).as_str());
    r.append(", but no string body was found.");
    r
}

/// The message that the command line prints for an error.
pub open spec fn error_message(e: ClientError) -> Seq<char> {
    match e {
        ClientError::Unauthorized => UNAUTHORIZED@,
        ClientError::Forbidden => FORBIDDEN@,
        ClientError::NotFound => NOT_FOUND@,
        ClientError::UnexpectedStatus(code) => unexpected_status_message(code),
        ClientError::EmptyBody => no_body_message(),
        ClientError::DecodeFailure(m) => m@,
        ClientError::TransportFailure(m) => m@,
    }
}

impl ClientError {
    /// The explanation and remedy that the command line prints.
    pub fn message(&self) -> (r: String)
        ensures
            r@ == error_message(*self),
    {
        match self {
            ClientError::Unauthorized => String::from_str(UNAUTHORIZED),
            ClientError::Forbidden => String::from_str(FORBIDDEN),
            ClientError::NotFound => String::from_str(NOT_FOUND),
            ClientError::UnexpectedStatus(code) => unexpected_status_output(*code),
            ClientError::EmptyBody => build_200_ok_no_string_body_output(),
            ClientError::DecodeFailure(m) => m.clone(),
            ClientError::TransportFailure(m) => m.clone(),
        }
    }
}

/// The outcome of a command: text to print as it stands, or a document to print as
/// indented JSON.
#[derive(Debug, PartialEq, Eq)]
pub enum Rendered {
    Text(String),
    Document(Json),
}

/// How an organization list is shown: its table, or in JSON mode the list encoded
/// anew; a body that is no list of summaries is a decoding failure.
pub open spec fn org_output_ok(body: Json, is_json: bool, r: Result<Rendered, ClientError>) -> bool {
    match org_list_of(body) {
        Some(os) => if is_json {
            r matches Ok(Rendered::Document(d)) && org_list_of(d) == Some(os)
        } else {
            r matches Ok(Rendered::Text(t)) && t@ == org_table(os)
        },
        None => r matches Err(ClientError::DecodeFailure(m)) && m@ == DESERIALIZE_ORG_SUMMARY@,
    }
}

/// Renders a body that should hold a list of organization summaries.
pub fn format_output(body: &Json, is_json: bool) -> (r: Result<Rendered, ClientError>)
    ensures
        org_output_ok(*body, is_json, r),
{
    match decode_org_list(body) {
        Ok(orgs) => if is_json {
            Ok(Rendered::Document(encode_org_list(&orgs)))
        } else {
            Ok(Rendered::Text(format_org_table(&orgs)))
        },
        Err(_) => Err(ClientError::DecodeFailure(String::from_str(DESERIALIZE_ORG_SUMMARY))),
    }
}

/// What `build_output` shows for a 200 response with this body.
pub open spec fn shown_body(body: Json, is_json: bool, r: Rendered) -> bool {
    match org_list_of(body) {
        Some(_) => org_output_ok(body, is_json, Ok(r)),
        None => r matches Rendered::Text(t) && t@ == DESERIALIZE_ORG_SUMMARY@,
    }
}

/// Renders the response to an organization list request: a message for 401, 403, 404
/// and unexpected codes, and for 200 the list, or the message for a missing body or
/// for a body that is no list of summaries.
pub fn build_output(response: &GitHubResponse, is_json: bool) -> (r: Rendered)
    ensures
        response.status == 403 ==> (r matches Rendered::Text(t) && t@ == FORBIDDEN@),
        response.status == 401 ==> (r matches Rendered::Text(t) && t@ == UNAUTHORIZED@),
        response.status == 200 ==> match response.body {
            None => r matches Rendered::Text(t) && t@ == no_body_message(),
            Some(body) => shown_body(body, is_json, r),
        },
        response.status == 404 ==> (r matches Rendered::Text(t) && t@ == NOT_FOUND@),
        response.status != 200 && response.status != 401 && response.status != 403
            && response.status != 404 ==> (
        r matches Rendered::Text(t) && t@ == unexpected_status_message(response.status)),
{
    if response.status == 403 {
        Rendered::Text(String::from_str(FORBIDDEN))
    } else if response.status == 401 {
        Rendered::Text(String::from_str(UNAUTHORIZED))
    } else if response.status == 404 {
        Rendered::Text(String::from_str(NOT_FOUND))
    } else if response.status == 200 {
        match &response.body {
            None => Rendered::Text(build_200_ok_no_string_body_output()),
            Some(body) => match format_output(body, is_json) {
                Ok(r) => r,
                Err(e) => Rendered::Text(e.message()),
            },
        }
    } else {
        Rendered::Text(unexpected_status_output(response.status))
    }
}

/// The whole course of an organization list response: classification, strict
/// decoding, then the table or, in JSON mode, the list encoded anew.
pub fn orgs_output(raw: RawResponse, is_json: bool) -> (r: Result<Rendered, ClientError>)
    ensures
        status_error(raw.status_code) matches Some(e) ==> r == Err::<Rendered, ClientError>(e),
        raw.status_code == 200 ==> match raw.body {
            None => r matches Err(ClientError::EmptyBody),
            Some(b) => match json_of_bytes(b@) {
                None => r matches Err(ClientError::DecodeFailure(_)),
                Some(j) => match org_list_of(j) {
                    None => r matches Err(ClientError::DecodeFailure(_)),
                    Some(os) => if is_json {
                        r matches Ok(Rendered::Document(d)) && org_list_of(d) == Some(os)
                    } else {
                        r matches Ok(Rendered::Text(t)) && t@ == org_table(os)
                    },
                },
            },
        },
{
    let response = match classify(raw) {
        Ok(p) => p,
        Err(e) => return Err(e),
    };
    match &response.body {
        Some(body) => format_output(body, is_json),
        None => Err(ClientError::EmptyBody),
    }
}

/// One line of a user's table: login, id and URL in columns of 12, 10 and 45 characters.
pub open spec fn user_line(login: Seq<char>, id: Seq<char>, url: Seq<char>) -> Seq<char> {
    padded(login, 12) + " "@ + padded(id, 10) + " "@ + padded(url, 45)
}

/// A user's table: a header line and a line of the user's login, id and URL.
pub open spec fn user_table(body: Json) -> Seq<char> {
    user_line("login"@, "id"@, "url"@) + NEW_LINE@ + user_line(
        member_text(body, "login"@),
        member_text(body, "id"@),
        member_text(body, "url"@),
    ) + NEW_LINE@
}

fn format_user_line(login: &str, id: &str, url: &str) -> (r: String)
    ensures
        r@ == user_line(login@, id@, url@),
{
    let mut r = pad_right(login, 12);
    r.append(" ");
    r.append(pad_right(id, 10).as_str());
    r.append(" ");
    r.append(pad_right(url, 45).as_str());
    assert(r@ =~= user_line(login@, id@, url@));
    r
}

/// Renders a user's profile as a table of its login, id and URL.
pub fn format_user_output(body: &Json) -> (r: String)
    ensures
        r@ == user_table(*body),
{
    let login = get(body, "login");
    let id = get(body, "id");
    let url = get(body, "url");
    let mut output = format_user_line("login", "id", "url");
    output.append(NEW_LINE);
    output.append(format_user_line(login.as_str(), id.as_str(), url.as_str()).as_str());
    output.append(NEW_LINE);
    assert(output@ =~= user_table(*body));
    output
}

/// How a user's profile is shown: the document itself in JSON mode, its table otherwise.
pub open spec fn user_output_ok(body: Json, is_json: bool, r: Rendered) -> bool {
    if is_json {
        r == Rendered::Document(body)
    } else {
        r matches Rendered::Text(t) && t@ == user_table(body)
    }
}

/// The whole course of a user profile response: classification, then the document
/// or its table.
pub fn user_output(raw: RawResponse, is_json: bool) -> (r: Result<Rendered, ClientError>)
    ensures
        status_error(raw.status_code) matches Some(e) ==> r == Err::<Rendered, ClientError>(e),
        raw.status_code == 200 ==> match raw.body {
            None => r matches Err(ClientError::EmptyBody),
            Some(b) => match json_of_bytes(b@) {
                None => r matches Err(ClientError::DecodeFailure(_)),
                Some(j) => (r matches Ok(x) && user_output_ok(j, is_json, x)),
            },
        },
{
    let response = match classify(raw) {
        Ok(p) => p,
        Err(e) => return Err(e),
    };
    match response.body {
        Some(body) => if is_json {
            Ok(Rendered::Document(body))
        } else {
            Ok(Rendered::Text(format_user_output(&body)))
        },
        None => Err(ClientError::EmptyBody),
    }
}

/// `r` is a failure with this status code and this help text.
pub open spec fn is_failure(r: Result<Rendered, GithubError>, code: Option<u16>, text: Seq<char>) -> bool {
    match r {
        Err(e) => e.status_code == code && e.help_str is Some && e.help_str->Some_0@ == text,
        Ok(_) => false,
    }
}

/// Renders a 200 response to a user request: the document in JSON mode, its table
/// otherwise; a missing body is a failure that carries its message.
pub fn build_single_user_output(response: GitHubResponse, is_json: bool) -> (r: Result<Rendered, GithubError>)
    ensures
        match response.body {
            None => is_failure(r, None, no_body_message()),
            Some(body) => (r matches Ok(x) && user_output_ok(body, is_json, x)),
        },
{
    match response.body {
        None => Err(GithubError { status_code: None, help_str: Some(build_200_ok_no_string_body_output()) }),
        Some(json) => if is_json {
            Ok(Rendered::Document(json))
        } else {
            Ok(Rendered::Text(format_user_output(&json)))
        },
    }
}

/// Renders the response to a user request: the profile for 200, and for any other
/// status a failure that carries the code and the message for it.
pub fn single_user(response: GitHubResponse, is_json: bool) -> (r: Result<Rendered, GithubError>)
    ensures
        response.status == 200 ==> match response.body {
            None => is_failure(r, None, no_body_message()),
            Some(body) => (r matches Ok(x) && user_output_ok(body, is_json, x)),
        },
        response.status != 200 ==> is_failure(
            r,
            Some(response.status),
            error_message(status_error(response.status)->Some_0),
        ),
{
    let code = response.status;
    match crate::response::error_for_status(code) {
        None => build_single_user_output(response, is_json),
        Some(e) => Err(GithubError { status_code: Some(code), help_str: Some(e.message()) }),
    }
}

} // verus!
