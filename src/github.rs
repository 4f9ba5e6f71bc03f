//! Plain requests for organization lists, with the header lines of the curl client,
//! and reading a body as text.
use vstd::prelude::*;
use crate::config::Config;
use crate::error::ClientError;
use crate::json::{decode_text, utf8_of};
use crate::orgs::{authed_orgs_endpoint, authed_orgs_url, user_orgs_endpoint, user_orgs_url};
use crate::request::{build_url_or_die, header_views, parsed_url, Header, Method, Request, USER_AGENT};

verus! {

/// The media type of version 3 of the API's JSON, without parameters.
pub const PLAIN_ACCEPT: &'static str = "application/vnd.github.v3+json";

/// The header lines of a plain request, in order: the client, the media type, and
/// `token <token>` where a token is given.
pub open spec fn plain_headers(token: Option<Seq<char>>) -> Seq<(Seq<char>, Seq<char>)> {
    match token {
        Some(t) => seq![
            ("User-Agent"@, USER_AGENT@),
            ("Accept"@, PLAIN_ACCEPT@),
            ("Authorization"@, "token "@ + t),
        ],
        None => seq![("User-Agent"@, USER_AGENT@), ("Accept"@, PLAIN_ACCEPT@)],
    }
}

fn header(name: &str, value: String) -> (r: Header)
    ensures
        r@ == (name@, value@),
{
    Header { name: String::from_str(name), value }
}

/// The headers of an anonymous plain request.
pub fn build_headers_no_auth() -> (r: Vec<Header>)
    ensures
        header_views(r@) == plain_headers(None),
{
    let mut xs: Vec<Header> = Vec::new();
    xs.push(header("User-Agent", String::from_str(USER_AGENT)));
    xs.push(header("Accept", String::from_str(PLAIN_ACCEPT)));
    assert(header_views(xs@) =~= plain_headers(None));
    xs
}

/// The headers of an authenticated plain request.
pub fn build_headers(token: &str) -> (r: Vec<Header>)
    ensures
        header_views(r@) == plain_headers(Some(token@)),
{
    let mut xs = build_headers_no_auth();
    let ghost before = header_views(xs@);
    let mut auth = String::from_str("token ");
    auth.append(token);
    xs.push(header("Authorization", auth));
    assert(header_views(xs@) =~= before.push(("Authorization"@, "token "@ + token@)));
    assert(header_views(xs@) =~= plain_headers(Some(token@)));
    xs
}

/// The authenticated plain request for the organizations of the configured user.
pub fn get_user_orgs(config: &Config) -> (r: Result<Request, ClientError>)
    ensures
        r is Ok <==> parsed_url(authed_orgs_endpoint()) is Some,
        r matches Ok(req) ==> {
            &&& req.method == Method::Get
            &&& req.url@ == authed_orgs_endpoint()
            &&& header_views(req.headers@) == plain_headers(Some(config.access_token@))
            &&& req.body is None
        },
        r matches Err(e) ==> e is TransportFailure,
{
    let url = authed_orgs_url();
    let url = match build_url_or_die(url.as_str()) {
        Ok(u) => u,
        Err(e) => return Err(e),
    };
    let headers = build_headers(config.access_token.as_str());
    Ok(Request { method: Method::Get, url, headers, body: None })
}

/// The anonymous plain request for the public organizations of `user`: no
/// `Authorization` header. `user` is neither checked nor escaped.
pub fn get_user_public_orgs(user: &str) -> (r: Result<Request, ClientError>)
    ensures
        r is Ok <==> parsed_url(user_orgs_endpoint(user@)) is Some,
        r matches Ok(req) ==> {
            &&& req.method == Method::Get
            &&& req.url@ == user_orgs_endpoint(user@)
            &&& header_views(req.headers@) == plain_headers(None)
            &&& req.body is None
        },
        r matches Err(e) ==> e is TransportFailure,
{
    let url = user_orgs_url(user);
    let url = match build_url_or_die(url.as_str()) {
        Ok(u) => u,
        Err(e) => return Err(e),
    };
    Ok(Request { method: Method::Get, url, headers: build_headers_no_auth(), body: None })
}

/// The body as text; `None` where it is not valid UTF-8, so that bad bytes are never
/// taken for an empty body.
pub fn parse_json(xs: &Vec<u8>) -> (r: Option<&str>)
    ensures
        r is Some <==> utf8_of(xs@) is Some,
        r matches Some(text) ==> utf8_of(xs@) == Some(text@),
{
    decode_text(xs.as_slice())
}

} // verus!
