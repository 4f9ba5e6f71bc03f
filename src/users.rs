//! Users: the requests that fetch them and the decoding of a public user.
use vstd::prelude::*;
use crate::config::Config;
use crate::error::ClientError;
use crate::json::{
    bool_member, field_error, get_bool, get_opt_str, get_str, get_u32, opt_str_member, str_member, u32_member, Json,
};
use crate::request::{build, header_views, parsed_url, request_headers, Method, Request, API_ROOT};

verus! {

/// A user's public profile. `email` and `bio` may be absent or null; every other field
/// is required.
#[derive(Debug, Clone, PartialEq, Eq)]
pub struct PublicUser {
    pub login: String,
    pub id: u32,
    pub avatar_url: String,
    pub gravatar_id: String,
    pub url: String,
    pub html_url: String,
    pub followers_url: String,
    pub following_url: String,
    pub gists_url: String,
    pub starred_url: String,
    pub subscriptions_url: String,
    pub organizations_url: String,
    pub repos_url: String,
    pub events_url: String,
    pub received_events_url: String,
    pub site_admin: bool,
    pub name: String,
    pub company: String,
    pub blog: String,
    pub location: String,
    pub email: Option<String>,
    pub hireable: bool,
    pub bio: Option<String>,
    pub public_repos: u32,
    pub public_gists: u32,
    pub following: u32,
    pub followers: u32,
    pub created_at: String,
    pub updated_at: String,
}

/// The profile that a JSON object describes: every required field present and of its type.
pub open spec fn public_user_of(j: Json) -> Option<PublicUser> {
    if str_member(j, "login"@) is Some
        && u32_member(j, "id"@) is Some
        && str_member(j, "avatar_url"@) is Some
        && str_member(j, "gravatar_id"@) is Some
        && str_member(j, "url"@) is Some
        && str_member(j, "html_url"@) is Some
        && str_member(j, "followers_url"@) is Some
        && str_member(j, "following_url"@) is Some
        && str_member(j, "gists_url"@) is Some
        && str_member(j, "starred_url"@) is Some
        && str_member(j, "subscriptions_url"@) is Some
        && str_member(j, "organizations_url"@) is Some
        && str_member(j, "repos_url"@) is Some
        && str_member(j, "events_url"@) is Some
        && str_member(j, "received_events_url"@) is Some
        && bool_member(j, "site_admin"@) is Some
        && str_member(j, "name"@) is Some
        && str_member(j, "company"@) is Some
        && str_member(j, "blog"@) is Some
        && str_member(j, "location"@) is Some
        && opt_str_member(j, "email"@) is Some
        && bool_member(j, "hireable"@) is Some
        && opt_str_member(j, "bio"@) is Some
        && u32_member(j, "public_repos"@) is Some
        && u32_member(j, "public_gists"@) is Some
        && u32_member(j, "following"@) is Some
        && u32_member(j, "followers"@) is Some
        && str_member(j, "created_at"@) is Some
        && str_member(j, "updated_at"@) is Some {
        Some(PublicUser {
            login: str_member(j, "login"@)->Some_0,
            id: u32_member(j, "id"@)->Some_0,
            avatar_url: str_member(j, "avatar_url"@)->Some_0,
            gravatar_id: str_member(j, "gravatar_id"@)->Some_0,
            url: str_member(j, "url"@)->Some_0,
            html_url: str_member(j, "html_url"@)->Some_0,
            followers_url: str_member(j, "followers_url"@)->Some_0,
            following_url: str_member(j, "following_url"@)->Some_0,
            gists_url: str_member(j, "gists_url"@)->Some_0,
            starred_url: str_member(j, "starred_url"@)->Some_0,
            subscriptions_url: str_member(j, "subscriptions_url"@)->Some_0,
            organizations_url: str_member(j, "organizations_url"@)->Some_0,
            repos_url: str_member(j, "repos_url"@)->Some_0,
            events_url: str_member(j, "events_url"@)->Some_0,
            received_events_url: str_member(j, "received_events_url"@)->Some_0,
            site_admin: bool_member(j, "site_admin"@)->Some_0,
            name: str_member(j, "name"@)->Some_0,
            company: str_member(j, "company"@)->Some_0,
            blog: str_member(j, "blog"@)->Some_0,
            location: str_member(j, "location"@)->Some_0,
            email: opt_str_member(j, "email"@)->Some_0,
            hireable: bool_member(j, "hireable"@)->Some_0,
            bio: opt_str_member(j, "bio"@)->Some_0,
            public_repos: u32_member(j, "public_repos"@)->Some_0,
            public_gists: u32_member(j, "public_gists"@)->Some_0,
            following: u32_member(j, "following"@)->Some_0,
            followers: u32_member(j, "followers"@)->Some_0,
            created_at: str_member(j, "created_at"@)->Some_0,
            updated_at: str_member(j, "updated_at"@)->Some_0,
        })
    } else {
        None
    }
}

impl PublicUser {
    /// Decodes a profile from a JSON object, strictly: only `email` and `bio` may be
    /// missing or null.
    pub fn from_json(j: &Json) -> (r: Result<PublicUser, ClientError>)
        ensures
            r is Ok <==> public_user_of(*j) is Some,
            r matches Ok(u) ==> public_user_of(*j) == Some(u),
            r matches Err(e) ==> e is DecodeFailure,
    {
        let login = match get_str(j, "login") {
            Some(v) => v,
            None => return Err(field_error("login")),
        };
        let id = match get_u32(j, "id") {
            Some(v) => v,
            None => return Err(field_error("id")),
        };
        let avatar_url = match get_str(j, "avatar_url") {
            Some(v) => v,
            None => return Err(field_error("avatar_url")),
        };
        let gravatar_id = match get_str(j, "gravatar_id") {
            Some(v) => v,
            None => return Err(field_error("gravatar_id")),
        };
        let url = match get_str(j, "url") {
            Some(v) => v,
            None => return Err(field_error("url")),
        };
        let html_url = match get_str(j, "html_url") {
            Some(v) => v,
            None => return Err(field_error("html_url")),
        };
        let followers_url = match get_str(j, "followers_url") {
            Some(v) => v,
            None => return Err(field_error("followers_url")),
        };
        let following_url = match get_str(j, "following_url") {
            Some(v) => v,
            None => return Err(field_error("following_url")),
        };
        let gists_url = match get_str(j, "gists_url") {
            Some(v) => v,
            None => return Err(field_error("gists_url")),
        };
        let starred_url = match get_str(j, "starred_url") {
            Some(v) => v,
            None => return Err(field_error("starred_url")),
        };
        let subscriptions_url = match get_str(j, "subscriptions_url") {
            Some(v) => v,
            None => return Err(field_error("subscriptions_url")),
        };
        let organizations_url = match get_str(j, "organizations_url") {
            Some(v) => v,
            None => return Err(field_error("organizations_url")),
        };
        let repos_url = match get_str(j, "repos_url") {
            Some(v) => v,
            None => return Err(field_error("repos_url")),
        };
        let events_url = match get_str(j, "events_url") {
            Some(v) => v,
            None => return Err(field_error("events_url")),
        };
        let received_events_url = match get_str(j, "received_events_url") {
            Some(v) => v,
            None => return Err(field_error("received_events_url")),
        };
        let site_admin = match get_bool(j, "site_admin") {
            Some(v) => v,
            None => return Err(field_error("site_admin")),
        };
        let name = match get_str(j, "name") {
            Some(v) => v,
            None => return Err(field_error("name")),
        };
        let company = match get_str(j, "company") {
            Some(v) => v,
            None => return Err(field_error("company")),
        };
        let blog = match get_str(j, "blog") {
            Some(v) => v,
            None => return Err(field_error("blog")),
        };
        let location = match get_str(j, "location") {
            Some(v) => v,
            None => return Err(field_error("location")),
        };
        let email = match get_opt_str(j, "email") {
            Some(v) => v,
            None => return Err(field_error("email")),
        };
        let hireable = match get_bool(j, "hireable") {
            Some(v) => v,
            None => return Err(field_error("hireable")),
        };
        let bio = match get_opt_str(j, "bio") {
            Some(v) => v,
            None => return Err(field_error("bio")),
        };
        let public_repos = match get_u32(j, "public_repos") {
            Some(v) => v,
            None => return Err(field_error("public_repos")),
        };
        let public_gists = match get_u32(j, "public_gists") {
            Some(v) => v,
            None => return Err(field_error("public_gists")),
        };
        let following = match get_u32(j, "following") {
            Some(v) => v,
            None => return Err(field_error("following")),
        };
        let followers = match get_u32(j, "followers") {
            Some(v) => v,
            None => return Err(field_error("followers")),
        };
        let created_at = match get_str(j, "created_at") {
            Some(v) => v,
            None => return Err(field_error("created_at")),
        };
        let updated_at = match get_str(j, "updated_at") {
            Some(v) => v,
            None => return Err(field_error("updated_at")),
        };
        Ok(PublicUser {
            login,
            id,
            avatar_url,
            gravatar_id,
            url,
            html_url,
            followers_url,
            following_url,
            gists_url,
            starred_url,
            subscriptions_url,
            organizations_url,
            repos_url,
            events_url,
            received_events_url,
            site_admin,
            name,
            company,
            blog,
            location,
            email,
            hireable,
            bio,
            public_repos,
            public_gists,
            following,
            followers,
            created_at,
            updated_at,
        })
    }
}

/// A user as a short record.
#[derive(Debug, Clone, PartialEq, Eq)]
pub struct User {
    pub login: String,
    pub id: u32,
    pub location: String,
    pub bio: Option<String>,
}

/// `https://api.github.com/users/{username}`.
pub open spec fn user_endpoint(username: Seq<char>) -> Seq<char> {
    API_ROOT@ + "/users/"@ + username
}

/// `https://api.github.com/user`: the authenticated user.
pub open spec fn authed_user_endpoint() -> Seq<char> {
    API_ROOT@ + "/user"@
}

/// Builds the endpoint of the user `username`; the name is not escaped.
pub fn build_get_user_endpoint(username: &str) -> (r: String)
    ensures
        r@ == user_endpoint(username@),
{
    let mut endpoint = String::from_str(API_ROOT);
    endpoint.append("/users/");
    endpoint.append(username);
    endpoint
}

/// The authenticated request for the public profile of `username`.
pub fn build_get_user_request(username: &str, config: &Config) -> (r: Result<Request, ClientError>)
    ensures
        r is Ok <==> parsed_url(user_endpoint(username@)) is Some,
        r matches Ok(req) ==> {
            &&& req.method == Method::Get
            &&& req.url@ == user_endpoint(username@)
            &&& header_views(req.headers@) == request_headers(Some(config.access_token@))
            &&& req.body is None
        },
{
    let endpoint = build_get_user_endpoint(username);
    build(Method::Get, endpoint.as_str(), Some(config))
}

/// The anonymous request for the public profile of `username`: no credentials are sent.
pub fn build_get_public_user_request(username: &str) -> (r: Result<Request, ClientError>)
    ensures
        r is Ok <==> parsed_url(user_endpoint(username@)) is Some,
        r matches Ok(req) ==> {
            &&& req.method == Method::Get
            &&& req.url@ == user_endpoint(username@)
            &&& header_views(req.headers@) == request_headers(None)
            &&& req.body is None
        },
{
    let endpoint = build_get_user_endpoint(username);
    build(Method::Get, endpoint.as_str(), None)
}

/// The authenticated request for the profile of the authenticated user.
pub fn build_request(config: &Config) -> (r: Result<Request, ClientError>)
    ensures
        r is Ok <==> parsed_url(authed_user_endpoint()) is Some,
        r matches Ok(req) ==> {
            &&& req.method == Method::Get
            &&& req.url@ == authed_user_endpoint()
            &&& header_views(req.headers@) == request_headers(Some(config.access_token@))
            &&& req.body is None
        },
{
    let mut endpoint = String::from_str(API_ROOT);
    endpoint.append("/user");
    build(Method::Get, endpoint.as_str(), Some(config))
}

} // verus!
