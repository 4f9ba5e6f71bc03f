//! Responses as the transport hands them over, and their classification by status.
use vstd::prelude::*;
use crate::decimal::{digits_value, is_decimal, parse_decimal};
use crate::error::ClientError;
use crate::json::{json_of_bytes, parse_bytes, utf8_of, decode_text, Json};
use crate::request::{header_views, names_match, same_name, Header};

verus! {

/// A response as it came off the wire.
#[derive(Debug, Clone, PartialEq, Eq)]
pub struct RawResponse {
    pub status_code: u16,
    pub headers: Vec<Header>,
    /// `None` where the server sent no body; an empty body is no body.
    pub body: Option<Vec<u8>>,
}

/// A successful response, its body parsed.
#[derive(Debug, PartialEq, Eq)]
pub struct GitHubResponse {
    pub status: u16,
    pub headers: Vec<Header>,
    pub body: Option<Json>,
}

/// The length that the first `Content-Length` header declares; 0 where there is none,
/// or where its value is no decimal number that fits in a `usize`.
pub open spec fn declared_length(hs: Seq<(Seq<char>, Seq<char>)>) -> nat
    decreases hs.len(),
{
    if hs.len() == 0 {
        0
    } else if same_name(hs[0].0, "Content-Length"@) {
        if is_decimal(hs[0].1) && digits_value(hs[0].1) <= usize::MAX {
            digits_value(hs[0].1)
        } else {
            0
        }
    } else {
        declared_length(hs.drop_first())
    }
}

/// The body length that the headers declare, 0 where they declare none.
pub fn get_body_length(headers: &Vec<Header>) -> (r: usize)
    ensures
        r == declared_length(header_views(headers@)),
{
    let ghost hs = header_views(headers@);
    let mut i: usize = 0;
    assert(hs.subrange(0, hs.len() as int) =~= hs);
    while i < headers.len()
        invariant
            0 <= i <= headers@.len(),
            hs == header_views(headers@),
            declared_length(hs) == declared_length(hs.subrange(i as int, hs.len() as int)),
        decreases headers.len() - i,
    {
        let ghost rest = hs.subrange(i as int, hs.len() as int);
        assert(rest[0] == headers@[i as int]@);
        if names_match(headers[i].name.as_str(), "Content-Length") {
            return match parse_decimal(headers[i].value.as_str()) {
                Some(n) => if n <= usize::MAX as u64 {
                    n as usize
                } else {
                    0
                },
                None => 0,
            };
        }
        assert(rest.drop_first() =~= hs.subrange(i as int + 1, hs.len() as int));
        i = i + 1;
    }
    0
}

impl RawResponse {
    /// Assembles a response from what the transport read. The body counts as absent
    /// where the headers declare no length or no bytes came.
    pub fn from_transport(status_code: u16, headers: Vec<Header>, bytes: Vec<u8>) -> (r: RawResponse)
        ensures
            r.status_code == status_code,
            r.headers@ == headers@,
            r.body == (if declared_length(header_views(headers@)) == 0 || bytes@.len() == 0 {
                None::<Vec<u8>>
            } else {
                Some(bytes)
            }),
    {
        let length = get_body_length(&headers);
        let body = if length == 0 || bytes.len() == 0 {
            None
        } else {
            Some(bytes)
        };
        RawResponse { status_code, headers, body }
    }
}

/// The body as text, where there is one and it is valid UTF-8.
pub fn read_utf8_body(response: &RawResponse) -> (r: Option<String>)
    ensures
        r is Some <==> (response.body matches Some(b) && utf8_of(b@) is Some),
        r matches Some(s) ==> (response.body matches Some(b) && utf8_of(b@) == Some(s@)),
{
    match &response.body {
        Some(b) => match decode_text(b.as_slice()) {
            Some(text) => Some(String::from_str(text)),
            None => None,
        },
        None => None,
    }
}

/// The body as a JSON document, where there is one and it is UTF-8 JSON.
pub fn read_json_body(response: &RawResponse) -> (r: Option<Json>)
    ensures
        r == (match response.body {
            Some(b) => json_of_bytes(b@),
            None => None,
        }),
{
    match &response.body {
        Some(b) => parse_bytes(b.as_slice()),
        None => None,
    }
}

/// The error that a status code means by itself, checked in order: 401, 403, 404,
/// then any code but 200. `None` for 200, whose outcome depends on the body.
pub open spec fn status_error(code: u16) -> Option<ClientError> {
    if code == 401 {
        Some(ClientError::Unauthorized)
    } else if code == 403 {
        Some(ClientError::Forbidden)
    } else if code == 404 {
        Some(ClientError::NotFound)
    } else if code != 200 {
        Some(ClientError::UnexpectedStatus(code))
    } else {
        None
    }
}

/// Applies the status rules in order; the first that matches gives the error.
pub fn error_for_status(code: u16) -> (r: Option<ClientError>)
    ensures
        r == status_error(code),
{
    if code == 401 {
        Some(ClientError::Unauthorized)
    } else if code == 403 {
        Some(ClientError::Forbidden)
    } else if code == 404 {
        Some(ClientError::NotFound)
    } else if code != 200 {
        Some(ClientError::UnexpectedStatus(code))
    } else {
        None
    }
}

/// Classifies a response: an error for each status but 200; for 200, the parsed body,
/// `EmptyBody` where there is no body, and `DecodeFailure` where the body is not
/// UTF-8 JSON.
pub fn classify(raw: RawResponse) -> (r: Result<GitHubResponse, ClientError>)
    ensures
        status_error(raw.status_code) matches Some(e) ==> r == Err::<GitHubResponse, ClientError>(e),
        raw.status_code == 200 ==> match raw.body {
            None => r matches Err(ClientError::EmptyBody),
            Some(b) => match json_of_bytes(b@) {
                Some(j) => (r matches Ok(p) && p.status == 200 && p.body == Some(j)
                    && p.headers@ == raw.headers@),
                None => r matches Err(ClientError::DecodeFailure(_)),
            },
        },
{
    match error_for_status(raw.status_code) {
        Some(e) => return Err(e),
        None => {},
    }
    match &raw.body {
        None => Err(ClientError::EmptyBody),
        Some(b) => match parse_bytes(b.as_slice()) {
            Some(j) => Ok(GitHubResponse { status: raw.status_code, headers: raw.headers, body: Some(j) }),
            None => Err(ClientError::DecodeFailure(String::from_str("the response body is not UTF-8 JSON"))),
        },
    }
}

} // verus!
