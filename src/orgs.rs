//! Organization summaries: the requests that list them, their decoding from JSON,
//! their encoding back to JSON, and their table.
use vstd::prelude::*;
use crate::config::Config;
use crate::decimal::{decimal_string, decimal_text, lemma_decimal_text};
use crate::error::ClientError;
use crate::json::{field_error, field_of, get_str, get_u32, str_member, u32_member, Json};
use crate::request::{build, header_views, parsed_url, request_headers, Method, Request, API_ROOT};
use crate::table::{pad_right, padded, NEW_LINE};

verus! {

/// An organization as the list endpoints describe it.
#[derive(Debug, Clone, PartialEq, Eq)]
pub struct OrgSummary {
    pub login: String,
    pub id: u32,
    pub url: String,
    pub repos_url: String,
    pub events_url: String,
    pub hooks_url: String,
    pub issues_url: String,
    pub members_url: String,
    pub public_members_url: String,
    pub avatar_url: String,
    pub description: String,
}

/// The summary that a JSON object describes: every field present and of its type.
pub open spec fn org_summary_of(j: Json) -> Option<OrgSummary> {
    if str_member(j, "login"@) is Some && u32_member(j, "id"@) is Some && str_member(j, "url"@) is Some
        && str_member(j, "repos_url"@) is Some && str_member(j, "events_url"@) is Some
        && str_member(j, "hooks_url"@) is Some && str_member(j, "issues_url"@) is Some
        && str_member(j, "members_url"@) is Some && str_member(j, "public_members_url"@) is Some
        && str_member(j, "avatar_url"@) is Some && str_member(j, "description"@) is Some {
        Some(OrgSummary {
            login: str_member(j, "login"@)->Some_0,
            id: u32_member(j, "id"@)->Some_0,
            url: str_member(j, "url"@)->Some_0,
            repos_url: str_member(j, "repos_url"@)->Some_0,
            events_url: str_member(j, "events_url"@)->Some_0,
            hooks_url: str_member(j, "hooks_url"@)->Some_0,
            issues_url: str_member(j, "issues_url"@)->Some_0,
            members_url: str_member(j, "members_url"@)->Some_0,
            public_members_url: str_member(j, "public_members_url"@)->Some_0,
            avatar_url: str_member(j, "avatar_url"@)->Some_0,
            description: str_member(j, "description"@)->Some_0,
        })
    } else {
        None
    }
}

/// The member names of an encoded summary, in the order they are written.
pub open spec fn org_keys() -> Seq<Seq<char>> {
    seq![
        "login"@, "id"@, "url"@, "repos_url"@, "events_url"@, "hooks_url"@, "issues_url"@,
        "members_url"@, "public_members_url"@, "avatar_url"@, "description"@,
    ]
}

/// `j` is the JSON object that encodes `o`: one member per field, in the order of
/// `org_keys`, the id as its decimal text.
pub open spec fn is_org_json(j: Json, o: OrgSummary) -> bool {
    match j {
        Json::Object(es) => {
            &&& es@.len() == 11
            &&& forall|k: int| 0 <= k < 11 ==> (#[trigger] es@[k]).0@ == org_keys()[k]
            &&& es@[0].1 == Json::Str(o.login)
            &&& es@[1].1 matches Json::Number(t) && t@ == decimal_text(o.id as nat)
            &&& es@[2].1 == Json::Str(o.url)
            &&& es@[3].1 == Json::Str(o.repos_url)
            &&& es@[4].1 == Json::Str(o.events_url)
            &&& es@[5].1 == Json::Str(o.hooks_url)
            &&& es@[6].1 == Json::Str(o.issues_url)
            &&& es@[7].1 == Json::Str(o.members_url)
            &&& es@[8].1 == Json::Str(o.public_members_url)
            &&& es@[9].1 == Json::Str(o.avatar_url)
            &&& es@[10].1 == Json::Str(o.description)
        },
        _ => false,
    }
}

proof fn lemma_field_at(es: Seq<(String, Json)>, k: int, key: Seq<char>)
    requires
        0 <= k < es.len(),
        es[k].0@ == key,
        forall|m: int| 0 <= m < k ==> (#[trigger] es[m]).0@ != key,
    ensures
        field_of(es, key) == Some(es[k].1),
    decreases k,
{
    if k > 0 {
        assert(es[0].0@ != key);
        assert forall|m: int| 0 <= m < k - 1 implies (#[trigger] es.drop_first()[m]).0@ != key by {
            assert(es.drop_first()[m] == es[m + 1]);
        }
        lemma_field_at(es.drop_first(), k - 1, key);
    }
}

proof fn lemma_org_keys_distinct()
    ensures
        forall|a: int, b: int| 0 <= a < b < 11 ==> org_keys()[a] != org_keys()[b],
{
    reveal_strlit("login");
    reveal_strlit("id");
    reveal_strlit("url");
    reveal_strlit("repos_url");
    reveal_strlit("events_url");
    reveal_strlit("hooks_url");
    reveal_strlit("issues_url");
    reveal_strlit("members_url");
    reveal_strlit("public_members_url");
    reveal_strlit("avatar_url");
    reveal_strlit("description");
    assert forall|a: int, b: int| 0 <= a < b < 11 implies org_keys()[a] != org_keys()[b] by {
        if org_keys()[a] == org_keys()[b] {
            assert(org_keys()[a].len() == org_keys()[b].len());
            assert(org_keys()[a][0] == org_keys()[b][0]);
        }
    }
}

/// Decoding the JSON encoding of a summary gives that summary back.
pub proof fn lemma_org_summary_round_trip(o: OrgSummary, j: Json)
    requires
        is_org_json(j, o),
    ensures
        org_summary_of(j) == Some(o),
{
    lemma_org_keys_distinct();
    lemma_decimal_text(o.id as nat);
    let es = j->Object_0@;
    assert forall|k: int| 0 <= k < 11 implies field_of(es, org_keys()[k]) == Some(#[trigger] es[k].1) by {
        lemma_field_at(es, k, org_keys()[k]);
    }
    assert(field_of(es, org_keys()[0]) == Some(es[0].1));
    assert(field_of(es, org_keys()[1]) == Some(es[1].1));
    assert(field_of(es, org_keys()[2]) == Some(es[2].1));
    assert(field_of(es, org_keys()[3]) == Some(es[3].1));
    assert(field_of(es, org_keys()[4]) == Some(es[4].1));
    assert(field_of(es, org_keys()[5]) == Some(es[5].1));
    assert(field_of(es, org_keys()[6]) == Some(es[6].1));
    assert(field_of(es, org_keys()[7]) == Some(es[7].1));
    assert(field_of(es, org_keys()[8]) == Some(es[8].1));
    assert(field_of(es, org_keys()[9]) == Some(es[9].1));
    assert(field_of(es, org_keys()[10]) == Some(es[10].1));
}

fn entry(key: &str, value: Json) -> (r: (String, Json))
    ensures
        r.0@ == key@,
        r.1 == value,
{
    (String::from_str(key), value)
}

impl OrgSummary {
    /// Decodes a summary from a JSON object. Every field must be present and of its
    /// type; nothing is filled in by default.
    pub fn from_json(j: &Json) -> (r: Result<OrgSummary, ClientError>)
        ensures
            r is Ok <==> org_summary_of(*j) is Some,
            r matches Ok(o) ==> org_summary_of(*j) == Some(o),
            r matches Err(e) ==> e is DecodeFailure,
    {
        let login = match get_str(j, "login") { Some(s) => s, None => return Err(field_error("login")) };
        let id = match get_u32(j, "id") { Some(n) => n, None => return Err(field_error("id")) };
        let url = match get_str(j, "url") { Some(s) => s, None => return Err(field_error("url")) };
        let repos_url = match get_str(j, "repos_url") {
            Some(s) => s,
            None => return Err(field_error("repos_url")),
        };
        let events_url = match get_str(j, "events_url") {
            Some(s) => s,
            None => return Err(field_error("events_url")),
        };
        let hooks_url = match get_str(j, "hooks_url") {
            Some(s) => s,
            None => return Err(field_error("hooks_url")),
        };
        let issues_url = match get_str(j, "issues_url") {
            Some(s) => s,
            None => return Err(field_error("issues_url")),
        };
        let members_url = match get_str(j, "members_url") {
            Some(s) => s,
            None => return Err(field_error("members_url")),
        };
        let public_members_url = match get_str(j, "public_members_url") {
            Some(s) => s,
            None => return Err(field_error("public_members_url")),
        };
        let avatar_url = match get_str(j, "avatar_url") {
            Some(s) => s,
            None => return Err(field_error("avatar_url")),
        };
        let description = match get_str(j, "description") {
            Some(s) => s,
            None => return Err(field_error("description")),
        };
        Ok(OrgSummary {
            login,
            id,
            url,
            repos_url,
            events_url,
            hooks_url,
            issues_url,
            members_url,
            public_members_url,
            avatar_url,
            description,
        })
    }

    /// Encodes the summary as a JSON object, one member per field.
    pub fn to_json(&self) -> (r: Json)
        ensures
            is_org_json(r, *self),
            org_summary_of(r) == Some(*self),
    {
        let mut es: Vec<(String, Json)> = Vec::new();
        es.push(entry("login", Json::Str(self.login.clone())));
        es.push(entry("id", Json::Number(decimal_string(self.id as u64))));
        es.push(entry("url", Json::Str(self.url.clone())));
        es.push(entry("repos_url", Json::Str(self.repos_url.clone())));
        es.push(entry("events_url", Json::Str(self.events_url.clone())));
        es.push(entry("hooks_url", Json::Str(self.hooks_url.clone())));
        es.push(entry("issues_url", Json::Str(self.issues_url.clone())));
        es.push(entry("members_url", Json::Str(self.members_url.clone())));
        es.push(entry("public_members_url", Json::Str(self.public_members_url.clone())));
        es.push(entry("avatar_url", Json::Str(self.avatar_url.clone())));
        es.push(entry("description", Json::Str(self.description.clone())));
        let r = Json::Object(es);
        assert(is_org_json(r, *self));
        proof {
            lemma_org_summary_round_trip(*self, r);
        }
        r
    }
}

/// The summaries that a JSON array of objects describes; `None` where the value is no
/// array or any element is no summary.
pub open spec fn org_list_of(j: Json) -> Option<Seq<OrgSummary>> {
    match j {
        Json::Array(items) => if forall|i: int| 0 <= i < items@.len() ==> (#[trigger] org_summary_of(items@[i])) is Some {
            Some(items@.map_values(|x: Json| org_summary_of(x)->Some_0))
        } else {
            None
        },
        _ => None,
    }
}

/// Decodes a JSON array of organization summaries, strictly.
pub fn decode_org_list(j: &Json) -> (r: Result<Vec<OrgSummary>, ClientError>)
    ensures
        r is Ok <==> org_list_of(*j) is Some,
        r matches Ok(v) ==> org_list_of(*j) == Some(v@),
        r matches Err(e) ==> e is DecodeFailure,
{
    match j {
        Json::Array(items) => {
            let mut out: Vec<OrgSummary> = Vec::new();
            let mut i: usize = 0;
            while i < items.len()
                invariant
                    0 <= i <= items@.len(),
                    *j == Json::Array(*items),
                    forall|k: int| 0 <= k < i ==> (#[trigger] org_summary_of(items@[k])) is Some,
                    out@ == items@.subrange(0, i as int).map_values(|x: Json| org_summary_of(x)->Some_0),
                decreases items.len() - i,
            {
                match OrgSummary::from_json(&items[i]) {
                    Ok(o) => {
                        out.push(o);
                        assert(items@.subrange(0, i as int + 1).map_values(|x: Json| org_summary_of(x)->Some_0)
                            =~= items@.subrange(0, i as int).map_values(|x: Json| org_summary_of(x)->Some_0).push(o));
                    },
                    Err(e) => return Err(e),
                }
                i = i + 1;
            }
            assert(items@.subrange(0, items@.len() as int) =~= items@);
            Ok(out)
        },
        _ => Err(ClientError::DecodeFailure(String::from_str("expected a JSON array of organizations"))),
    }
}

/// Encodes summaries as a JSON array of objects.
pub fn encode_org_list(orgs: &Vec<OrgSummary>) -> (r: Json)
    ensures
        org_list_of(r) == Some(orgs@),
{
    let mut items: Vec<Json> = Vec::new();
    let mut i: usize = 0;
    while i < orgs.len()
        invariant
            0 <= i <= orgs@.len(),
            items@.len() == i,
            forall|k: int| 0 <= k < i ==> (#[trigger] org_summary_of(items@[k])) == Some(orgs@[k]),
        decreases orgs.len() - i,
    {
        items.push(orgs[i].to_json());
        i = i + 1;
    }
    assert(items@.map_values(|x: Json| org_summary_of(x)->Some_0) =~= orgs@);
    Json::Array(items)
}

/// One line of the table: login, id, URL and description, left-justified in columns
/// of 10, 10, 45 and 30 characters.
pub open spec fn org_line(login: Seq<char>, id: Seq<char>, url: Seq<char>, description: Seq<char>) -> Seq<char> {
    padded(login, 10) + " "@ + padded(id, 10) + " "@ + padded(url, 45) + " "@ + padded(description, 30)
}

pub open spec fn org_row(o: OrgSummary) -> Seq<char> {
    org_line(o.login@, decimal_text(o.id as nat), o.url@, o.description@)
}

pub open spec fn org_rows(os: Seq<OrgSummary>) -> Seq<char>
    decreases os.len(),
{
    if os.len() == 0 {
        Seq::empty()
    } else {
        org_rows(os.drop_last()) + org_row(os.last()) + NEW_LINE@
    }
}

/// The table of summaries: a header line, then one line per summary in order.
pub open spec fn org_table(os: Seq<OrgSummary>) -> Seq<char> {
    org_line("login"@, "id"@, "url"@, "description"@) + NEW_LINE@ + org_rows(os)
}

fn format_org_line(login: &str, id: &str, url: &str, description: &str) -> (r: String)
    ensures
        r@ == org_line(login@, id@, url@, description@),
{
    let mut r = pad_right(login, 10);
    r.append(" ");
    r.append(pad_right(id, 10).as_str());
    r.append(" ");
    r.append(pad_right(url, 45).as_str());
    r.append(" ");
    r.append(pad_right(description, 30).as_str());
    assert(r@ =~= org_line(login@, id@, url@, description@));
    r
}

/// Renders summaries as a table, one line each under a header line.
pub fn format_org_table(orgs: &Vec<OrgSummary>) -> (r: String)
    ensures
        r@ == org_table(orgs@),
{
    let mut r = format_org_line("login", "id", "url", "description");
    r.append(NEW_LINE);
    let ghost head = r@;
    let mut i: usize = 0;
    assert(orgs@.subrange(0, 0) =~= Seq::<OrgSummary>::empty());
    while i < orgs.len()
        invariant
            0 <= i <= orgs@.len(),
            head == org_line("login"@, "id"@, "url"@, "description"@) + NEW_LINE@,
            r@ == head + org_rows(orgs@.subrange(0, i as int)),
        decreases orgs.len() - i,
    {
        let o = &orgs[i];
        let id = decimal_string(o.id as u64);
        let line = format_org_line(o.login.as_str(), id.as_str(), o.url.as_str(), o.description.as_str());
        r.append(line.as_str());
        r.append(NEW_LINE);
        let ghost p = orgs@.subrange(0, i as int + 1);
        assert(p.drop_last() =~= orgs@.subrange(0, i as int));
        assert(r@ =~= head + org_rows(p));
        i = i + 1;
    }
    assert(orgs@.subrange(0, orgs@.len() as int) =~= orgs@);
    r
}

/// The table depends on the summaries alone: rendering one list twice gives one text.
pub proof fn lemma_org_table_repeatable(orgs: Seq<OrgSummary>, first: Seq<char>, second: Seq<char>)
    requires
        first == org_table(orgs),
        second == org_table(orgs),
    ensures
        first == second,
{
}

/// `https://api.github.com/user/orgs`: the organizations of the authenticated user.
pub open spec fn authed_orgs_endpoint() -> Seq<char> {
    API_ROOT@ + "/user/orgs"@
}

/// `https://api.github.com/users/{user}/orgs`: the public organizations of a user.
pub open spec fn user_orgs_endpoint(user: Seq<char>) -> Seq<char> {
    API_ROOT@ + "/users/"@ + user + "/orgs"@
}

/// Builds the endpoint of the public organizations of `user`; `user` is not escaped.
pub fn user_orgs_url(user: &str) -> (r: String)
    ensures
        r@ == user_orgs_endpoint(user@),
{
    let mut r = String::from_str(API_ROOT);
    r.append("/users/");
    r.append(user);
    r.append("/orgs");
    r
}

/// Builds the endpoint of the organizations of the authenticated user.
pub fn authed_orgs_url() -> (r: String)
    ensures
        r@ == authed_orgs_endpoint(),
{
    let mut r = String::from_str(API_ROOT);
    r.append("/user/orgs");
    r
}

/// Lists the organizations of the authenticated user: `GET /user/orgs`.
pub struct ListOrgs {
    pub config: Config,
}

/// Lists the public organizations of a user: `GET /users/{username}/orgs`.
pub struct ListUserOrganizations {
    pub username: String,
    pub config: Config,
}

impl ListOrgs {
    /// The authenticated request; fails only where the endpoint does not parse.
    pub fn as_request(&self) -> (r: Result<Request, ClientError>)
        ensures
            r is Ok <==> parsed_url(authed_orgs_endpoint()) is Some,
            r matches Ok(req) ==> {
                &&& req.method == Method::Get
                &&& req.url@ == authed_orgs_endpoint()
                &&& header_views(req.headers@) == request_headers(Some(self.config.access_token@))
                &&& req.body is None
            },
    {
        let endpoint = authed_orgs_url();
        build(Method::Get, endpoint.as_str(), Some(&self.config))
    }
}

impl ListUserOrganizations {
    /// The anonymous request: a user's public organizations need no credentials, and
    /// none are sent. Fails only where the endpoint does not parse.
    pub fn as_request(&self) -> (r: Result<Request, ClientError>)
        ensures
            r is Ok <==> parsed_url(user_orgs_endpoint(self.username@)) is Some,
            r matches Ok(req) ==> {
                &&& req.method == Method::Get
                &&& req.url@ == user_orgs_endpoint(self.username@)
                &&& header_views(req.headers@) == request_headers(None)
                &&& req.body is None
            },
    {
        let endpoint = user_orgs_url(self.username.as_str());
        build(Method::Get, endpoint.as_str(), None)
    }
}

} // verus!
