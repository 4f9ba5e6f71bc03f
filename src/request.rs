//! HTTP requests to the API: endpoint, method and headers.
use vstd::prelude::*;
use crate::config::Config;
use crate::error::ClientError;

verus! {

/// The root that every endpoint of the API hangs from.
pub const API_ROOT: &'static str = "https://api.github.com";

/// Identifies this client to the server.
pub const USER_AGENT: &'static str = "gh/0.0.1-SNAPSHOT";

/// The media type of version 3 of the API's JSON, in UTF-8.
pub const ACCEPT: &'static str = "application/vnd.github.v3+json; charset=utf-8";

#[derive(Clone, Copy, Debug, PartialEq, Eq, Structural)]
pub enum Method {
    Get,
    Post,
}

/// One header line: a name and its value.
#[derive(Debug, Clone, PartialEq, Eq)]
pub struct Header {
    pub name: String,
    pub value: String,
}

impl View for Header {
    type V = (Seq<char>, Seq<char>);

    open spec fn view(&self) -> (Seq<char>, Seq<char>) {
        (self.name@, self.value@)
    }
}

/// The name and value of each header, in order.
pub open spec fn header_views(hs: Seq<Header>) -> Seq<(Seq<char>, Seq<char>)> {
    hs.map_values(|h: Header| h@)
}

/// A request, fully formed and ready to be sent.
#[derive(Debug, Clone, PartialEq, Eq)]
pub struct Request {
    pub method: Method,
    pub url: String,
    pub headers: Vec<Header>,
    pub body: Option<Vec<u8>>,
}

pub open spec fn user_agent_header() -> (Seq<char>, Seq<char>) {
    ("User-Agent"@, USER_AGENT@)
}

pub open spec fn accept_header() -> (Seq<char>, Seq<char>) {
    ("Accept"@, ACCEPT@)
}

/// The header that carries `token` as a bearer token.
pub open spec fn auth_header(token: Seq<char>) -> (Seq<char>, Seq<char>) {
    ("Authorization"@, "Bearer "@ + token)
}

/// The headers of a fresh request: the media type and the client, and the bearer
/// token where credentials are given.
pub open spec fn request_headers(token: Option<Seq<char>>) -> Seq<(Seq<char>, Seq<char>)> {
    match token {
        Some(t) => seq![accept_header(), user_agent_header(), auth_header(t)],
        None => seq![accept_header(), user_agent_header()],
    }
}

/// The code of a character with ASCII upper case folded to lower case.
pub open spec fn folded_code(c: char) -> u32 {
    if 'A' <= c && c <= 'Z' {
        (c as u32 + 32) as u32
    } else {
        c as u32
    }
}

/// Equal but for the case of ASCII letters, as header names compare.
pub open spec fn same_name(a: Seq<char>, b: Seq<char>) -> bool {
    a.len() == b.len() && forall|i: int| 0 <= i < a.len() ==> folded_code(#[trigger] a[i]) == folded_code(b[i])
}

fn fold_code(c: char) -> (r: u32)
    ensures
        r == folded_code(c),
{
    if 'A' <= c && c <= 'Z' {
        c as u32 + 32
    } else {
        c as u32
    }
}

/// Compares two header names, ignoring the case of ASCII letters.
pub fn names_match(a: &str, b: &str) -> (r: bool)
    ensures
        r == same_name(a@, b@),
{
    let n = a.unicode_len();
    if n != b.unicode_len() {
        return false;
    }
    let mut i: usize = 0;
    while i < n
        invariant
            n == a@.len() == b@.len(),
            0 <= i <= n,
            forall|k: int| 0 <= k < i ==> folded_code(#[trigger] a@[k]) == folded_code(b@[k]),
        decreases n - i,
    {
        if fold_code(a.get_char(i)) != fold_code(b.get_char(i)) {
            return false;
        }
        i = i + 1;
    }
    true
}

/// Some header is named `name`.
pub open spec fn has_header(hs: Seq<(Seq<char>, Seq<char>)>, name: Seq<char>) -> bool {
    exists|i: int| 0 <= i < hs.len() && same_name(#[trigger] hs[i].0, name)
}

/// Sets the header `name` to `value`: each header of that name keeps its place and
/// its spelling and takes the new value; where there is none, one is added at the end.
/// The other headers stay as they were.
pub open spec fn set_header(
    hs: Seq<(Seq<char>, Seq<char>)>,
    name: Seq<char>,
    value: Seq<char>,
) -> Seq<(Seq<char>, Seq<char>)> {
    if has_header(hs, name) {
        hs.map_values(|h: (Seq<char>, Seq<char>)| if same_name(h.0, name) { (h.0, value) } else { h })
    } else {
        hs.push((name, value))
    }
}

/// The serialised form of a URL where the text parses as an absolute URL.
pub uninterp spec fn parsed_url(text: Seq<char>) -> Option<Seq<char>>;

/// Relies on hyper::Url::parse (the url crate's parser): it accepts an absolute URL or
/// fails with a diagnostic, and what it accepts and how it serialises it depend on
/// the text alone.
#[verifier::external_body]
fn parse_url(text: &str) -> (r: Result<String, String>)
    ensures
        r is Ok <==> parsed_url(text@) is Some,
        r matches Ok(u) ==> parsed_url(text@) == Some(u@),
{
    match hyper::Url::parse(text) {
        Ok(u) => Ok(u.into_string()),
        Err(e) => Err(e.to_string()),
    }
}

/// Sets the header `name` to `value`, as `set_header` says.
pub fn set_header_value(headers: &mut Vec<Header>, name: &str, value: &str)
    ensures
        header_views(final(headers)@) == set_header(header_views(old(headers)@), name@, value@),
{
    let ghost hs = header_views(headers@);
    let ghost target = set_header(hs, name@, value@);
    let mut found = false;
    let mut i: usize = 0;
    while i < headers.len()
        invariant
            0 <= i <= headers@.len(),
            hs == header_views(old(headers)@),
            headers@.len() == old(headers)@.len(),
            found <==> exists|k: int| 0 <= k < i && same_name(#[trigger] hs[k].0, name@),
            forall|k: int| 0 <= k < i ==> (#[trigger] headers@[k])@ == (
                if same_name(hs[k].0, name@) { (hs[k].0, value@) } else { hs[k] }),
            forall|k: int| i <= k < headers@.len() ==> #[trigger] headers@[k] == old(headers)@[k],
        decreases headers.len() - i,
    {
        if names_match(headers[i].name.as_str(), name) {
            headers[i].value = String::from_str(value);
            found = true;
        }
        assert(hs[i as int] == old(headers)@[i as int]@);
        i = i + 1;
    }
    if found {
        assert(has_header(hs, name@));
        assert(header_views(headers@) =~= target);
    } else {
        assert(!has_header(hs, name@));
        assert(header_views(headers@) =~= hs);
        headers.push(Header { name: String::from_str(name), value: String::from_str(value) });
        assert(header_views(headers@) =~= target);
    }
}

/// Sets the headers that every request carries: the API's versioned JSON media type
/// and the client's name and version. Other headers stay as they were.
pub fn add_base_headers(headers: &mut Vec<Header>)
    ensures
        header_views(final(headers)@) == set_header(
            set_header(header_views(old(headers)@), "Accept"@, ACCEPT@),
            "User-Agent"@,
            USER_AGENT@,
        ),
{
    set_header_value(headers, "Accept", ACCEPT);
    set_header_value(headers, "User-Agent", USER_AGENT);
}

/// The value of the header that carries `token` as a bearer token.
fn bearer(token: &str) -> (r: String)
    ensures
        r@ == auth_header(token@).1,
{
    let mut value = String::from_str("Bearer ");
    value.append(token);
    value
}

/// Sets the header that carries the access token as a bearer token. Other headers
/// stay as they were.
pub fn add_auth_header(headers: &mut Vec<Header>, config: &Config)
    ensures
        header_views(final(headers)@) == set_header(
            header_views(old(headers)@),
            "Authorization"@,
            auth_header(config.access_token@).1,
        ),
{
    let value = bearer(config.access_token.as_str());
    set_header_value(headers, "Authorization", value.as_str());
}

/// Sets every header of an authenticated request. Other headers stay as they were.
pub fn add_headers(headers: &mut Vec<Header>, config: &Config)
    ensures
        header_views(final(headers)@) == set_header(
            set_header(
                set_header(header_views(old(headers)@), "Accept"@, ACCEPT@),
                "User-Agent"@,
                USER_AGENT@,
            ),
            "Authorization"@,
            auth_header(config.access_token@).1,
        ),
{
    add_base_headers(headers);
    add_auth_header(headers, config);
}

/// On a fresh request, setting the headers adds them in order.
pub proof fn lemma_fresh_headers(token: Option<Seq<char>>)
    ensures
        set_header(set_header(Seq::empty(), "Accept"@, ACCEPT@), "User-Agent"@, USER_AGENT@)
            == request_headers(None),
        token matches Some(t) ==> set_header(request_headers(None), "Authorization"@, auth_header(t).1)
            == request_headers(token),
{
    reveal_strlit("Accept");
    reveal_strlit("User-Agent");
    reveal_strlit("Authorization");
    let e = Seq::<(Seq<char>, Seq<char>)>::empty();
    assert(!has_header(e, "Accept"@));
    let one = set_header(e, "Accept"@, ACCEPT@);
    assert(one =~= seq![accept_header()]);
    assert(!same_name("Accept"@, "User-Agent"@));
    assert(!has_header(one, "User-Agent"@));
    assert(set_header(one, "User-Agent"@, USER_AGENT@) =~= request_headers(None));
    let two = request_headers(None);
    assert(!same_name("Accept"@, "Authorization"@));
    assert(!same_name("User-Agent"@, "Authorization"@));
    assert(!has_header(two, "Authorization"@));
    if let Some(t) = token {
        assert(set_header(two, "Authorization"@, auth_header(t).1) =~= request_headers(token));
    }
}

pub open spec fn url_failure_message(endpoint: Seq<char>, diagnostic: Seq<char>) -> Seq<char> {
    "Fatal error parsing endpoint "@ + endpoint + " "@ + diagnostic
}

/// Checks that an endpoint is an absolute URL and gives it back as it was written:
/// nothing in it is escaped or normalised. A malformed URL is a fault of
/// configuration, reported as a transport failure that names the endpoint and the
/// parser's diagnostic.
pub fn build_url_or_die(endpoint: &str) -> (r: Result<String, ClientError>)
    ensures
        r is Ok <==> parsed_url(endpoint@) is Some,
        r matches Ok(u) ==> u@ == endpoint@,
        r matches Err(e) ==> (e matches ClientError::TransportFailure(m)
            && exists|d: Seq<char>| m@ == url_failure_message(endpoint@, d)),
{
    match parse_url(endpoint) {
        Ok(_) => Ok(String::from_str(endpoint)),
        Err(d) => {
            let mut m = String::from_str("Fatal error parsing endpoint ");
            m.append(endpoint);
            m.append(" ");
            m.append(d.as_str());
            assert(m@ =~= url_failure_message(endpoint@, d@));
            Err(ClientError::TransportFailure(m))
        },
    }
}

/// Builds an authenticated request for a URL that has been checked already.
pub fn build_authed_request_or_die(method: Method, url: &String, config: &Config) -> (r: Request)
    ensures
        r.method == method,
        r.url@ == url@,
        header_views(r.headers@) == request_headers(Some(config.access_token@)),
        r.body is None,
{
    let mut headers: Vec<Header> = Vec::new();
    assert(header_views(headers@) =~= Seq::empty());
    add_headers(&mut headers, config);
    proof {
        lemma_fresh_headers(Some(config.access_token@));
    }
    Request { method, url: url.clone(), headers, body: None }
}

/// The token that a request made with `credentials` carries, if any.
pub open spec fn token_of(credentials: Option<&Config>) -> Option<Seq<char>> {
    match credentials {
        Some(c) => Some(c.access_token@),
        None => None,
    }
}

/// Builds the request for `endpoint`: authenticated where credentials are given,
/// anonymous otherwise. The URL is the endpoint as written. Fails only where
/// `endpoint` is no absolute URL.
pub fn build(method: Method, endpoint: &str, credentials: Option<&Config>) -> (r: Result<Request, ClientError>)
    ensures
        r is Ok <==> parsed_url(endpoint@) is Some,
        r matches Ok(req) ==> {
            &&& req.method == method
            &&& req.url@ == endpoint@
            &&& header_views(req.headers@) == request_headers(token_of(credentials))
            &&& req.body is None
        },
        r matches Err(e) ==> e is TransportFailure,
{
    let url = match build_url_or_die(endpoint) {
        Ok(u) => u,
        Err(e) => return Err(e),
    };
    let mut headers: Vec<Header> = Vec::new();
    assert(header_views(headers@) =~= Seq::empty());
    add_base_headers(&mut headers);
    proof {
        lemma_fresh_headers(token_of(credentials));
    }
    match credentials {
        Some(c) => add_auth_header(&mut headers, c),
        None => {},
    }
    Ok(Request { method, url, headers, body: None })
}

} // verus!
