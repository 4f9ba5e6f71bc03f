use gh::decimal::{decimal_string, parse_decimal};
use gh::error::{ClientError, GithubError};
use gh::json::{parse_text, Json};
use gh::orgs::{decode_org_list, encode_org_list, format_org_table, OrgSummary};
use gh::output::{
    build_200_ok_no_string_body_output, build_output, build_single_user_output, format_user_output,
    format_output, orgs_output, single_user, status_text, user_output, Rendered, FORBIDDEN,
    NOT_FOUND, UNAUTHORIZED,
};
use gh::request::Header;
use gh::response::{GitHubResponse, RawResponse};
use gh::users::PublicUser;
use gh::util::reverse;

fn response(status: u16, body: Option<Json>) -> GitHubResponse {
    GitHubResponse { status, headers: Vec::new(), body }
}

fn text(r: Rendered) -> String {
    match r {
        Rendered::Text(s) => s,
        Rendered::Document(d) => panic!("expected text, got {:?}", d),
    }
}

fn org(login: &str, id: u32, url: &str, description: &str) -> OrgSummary {
    OrgSummary {
        login: login.to_owned(),
        id,
        url: url.to_owned(),
        repos_url: "r".to_owned(),
        events_url: "e".to_owned(),
        hooks_url: "h".to_owned(),
        issues_url: "i".to_owned(),
        members_url: "m".to_owned(),
        public_members_url: "p".to_owned(),
        avatar_url: "a".to_owned(),
        description: description.to_owned(),
    }
}

const ORG_JSON: &str = "{\"login\":\"github\",\"id\":1,\"url\":\"https://api.github.com/orgs/github\",\
\"repos_url\":\"https://api.github.com/orgs/github/repos\",\"events_url\":\"https://api.github.com/orgs/github/events\",\
\"hooks_url\":\"https://api.github.com/orgs/github/hooks\",\"issues_url\":\"https://api.github.com/orgs/github/issues\",\
\"members_url\":\"https://api.github.com/orgs/github/members{/member}\",\
\"public_members_url\":\"https://api.github.com/orgs/github/public_members{/member}\",\
\"avatar_url\":\"https://github.com/images/error/octocat_happy.gif\",\"description\":\"A great organization\"}";

#[test]
fn it_works() {}

#[test]
fn test_build_output_forbidden() {
    let r = response(403, None);
    assert_eq!(text(build_output(&r, false)), FORBIDDEN);
}

#[test]
fn test_build_output_unauthorized() {
    let r = response(401, None);
    assert_eq!(text(build_output(&r, false)), UNAUTHORIZED);
}

#[test]
fn test_build_output_unknown() {
    let r = response(418, None);
    assert_eq!(text(build_output(&r, false)), "Unexpected Http Response Code 418 I'm a teapot");
}

#[test]
fn build_output_not_found() {
    let r = response(404, Some(Json::Null));
    assert_eq!(text(build_output(&r, false)), NOT_FOUND);
    assert_eq!(text(build_output(&response(404, None), true)), NOT_FOUND);
}

#[test]
fn format_output_fails_on_a_body_that_is_no_list() {
    match format_output(&parse_text("{}").unwrap(), false) {
        Err(ClientError::DecodeFailure(m)) => assert_eq!(m, "Error deserializing GitHub Organization Summary JSON."),
        other => panic!("unexpected {:?}", other),
    }
}

#[test]
fn test_build_200_ok_no_string_body_output() {
    assert_eq!(
        build_200_ok_no_string_body_output(),
        "An unknown error occurred. GitHub responded with 200 OK, but no string body was found."
    );
}

#[test]
fn test_build_output_no_string_body() {
    let r = response(200, None);
    assert_eq!(
        text(build_output(&r, false)),
        "An unknown error occurred. GitHub responded with 200 OK, but no string body was found."
    );
}

#[test]
fn status_text_uses_reason_phrases() {
    assert_eq!(status_text(404), "404 Not Found");
    assert_eq!(status_text(299), "299 <unknown status code>");
}

#[test]
fn decimal_text_round_trips() {
    assert_eq!(decimal_string(0), "0");
    assert_eq!(decimal_string(4294967295), "4294967295");
    assert_eq!(parse_decimal("4294967295"), Some(4294967295));
    assert_eq!(parse_decimal("18446744073709551615"), Some(u64::MAX));
    assert_eq!(parse_decimal("18446744073709551616"), None);
    assert_eq!(parse_decimal(""), None);
    assert_eq!(parse_decimal("12a"), None);
}

#[test]
fn org_summary_decodes_strictly() {
    let doc = parse_text(ORG_JSON).unwrap();
    let o = OrgSummary::from_json(&doc).unwrap();
    assert_eq!(o.login, "github");
    assert_eq!(o.id, 1);
    assert_eq!(o.description, "A great organization");
    let missing = parse_text("{\"login\":\"github\",\"id\":1}").unwrap();
    assert!(matches!(OrgSummary::from_json(&missing), Err(ClientError::DecodeFailure(_))));
    let negative = parse_text(&ORG_JSON.replace("\"id\":1", "\"id\":-1")).unwrap();
    assert!(matches!(OrgSummary::from_json(&negative), Err(ClientError::DecodeFailure(_))));
    let too_big = parse_text(&ORG_JSON.replace("\"id\":1", "\"id\":4294967296")).unwrap();
    assert!(OrgSummary::from_json(&too_big).is_err());
}

#[test]
fn org_summary_round_trips_through_json() {
    let x = org("octocat", 4294967295, "https://x", "d");
    let j = x.to_json();
    assert_eq!(OrgSummary::from_json(&j), Ok(x.clone()));
    let list = vec![x.clone(), org("b", 0, "u", "")];
    assert_eq!(decode_org_list(&encode_org_list(&list)), Ok(list));
}

#[test]
fn org_list_needs_an_array_of_summaries() {
    let doc = parse_text(&format!("[{},{}]", ORG_JSON, ORG_JSON)).unwrap();
    assert_eq!(decode_org_list(&doc).unwrap().len(), 2);
    assert!(decode_org_list(&parse_text(ORG_JSON).unwrap()).is_err());
    assert!(decode_org_list(&parse_text("[1]").unwrap()).is_err());
    assert_eq!(decode_org_list(&parse_text("[]").unwrap()), Ok(Vec::new()));
}

#[test]
fn single_org_table_has_a_header_and_one_row() {
    let table = format_org_table(&vec![org("octocat", 1, "https://x", "d")]);
    let expected = format!(
        "{:<10} {:<10} {:<45} {:<30}\n{:<10} {:<10} {:<45} {:<30}\n",
        "login", "id", "url", "description", "octocat", "1", "https://x", "d"
    );
    assert_eq!(table, expected);
    assert_eq!(table.lines().count(), 2);
    assert!(table.starts_with("login      id         url"));
}

#[test]
fn table_is_the_same_when_rendered_twice() {
    let orgs = vec![org("a", 1, "u", "d"), org("a-very-long-login", 12345678, "v", "e")];
    assert_eq!(format_org_table(&orgs), format_org_table(&orgs));
    assert!(format_org_table(&orgs).contains("a-very-long-login 12345678 "));
}

#[test]
fn empty_org_table_is_the_header() {
    let table = format_org_table(&Vec::new());
    assert_eq!(table.lines().count(), 1);
}

#[test]
fn build_output_renders_lists() {
    let doc = parse_text(&format!("[{}]", ORG_JSON)).unwrap();
    let table = text(build_output(&response(200, Some(doc)), false));
    assert!(table.contains("github     1          https://api.github.com/orgs/github"));
    let doc = parse_text(&format!("[{}]", ORG_JSON)).unwrap();
    match build_output(&response(200, Some(doc)), true) {
        Rendered::Document(d) => assert_eq!(decode_org_list(&d).unwrap()[0].login, "github"),
        other => panic!("unexpected {:?}", other),
    }
    let bad = parse_text("{}").unwrap();
    assert_eq!(
        text(build_output(&response(200, Some(bad)), false)),
        "Error deserializing GitHub Organization Summary JSON."
    );
}

#[test]
fn orgs_output_follows_classification() {
    let raw = |status: u16, body: Option<&str>| RawResponse {
        status_code: status,
        headers: vec![Header { name: "Content-Length".to_owned(), value: "1".to_owned() }],
        body: body.map(|b| b.as_bytes().to_vec()),
    };
    assert_eq!(orgs_output(raw(401, Some("[]")), false), Err(ClientError::Unauthorized));
    assert_eq!(orgs_output(raw(200, None), false), Err(ClientError::EmptyBody));
    assert!(matches!(orgs_output(raw(200, Some("{")), false), Err(ClientError::DecodeFailure(_))));
    assert!(matches!(orgs_output(raw(200, Some("{}")), false), Err(ClientError::DecodeFailure(_))));
    let ok = orgs_output(raw(200, Some(&format!("[{}]", ORG_JSON))), false).unwrap();
    assert_eq!(text(ok).lines().count(), 2);
}

#[test]
fn client_error_messages() {
    assert_eq!(ClientError::Forbidden.message(), FORBIDDEN);
    assert_eq!(ClientError::Unauthorized.message(), UNAUTHORIZED);
    assert_eq!(ClientError::UnexpectedStatus(500).message(), "Unexpected Http Response Code 500 Internal Server Error");
    assert_eq!(ClientError::DecodeFailure("bad".to_owned()).message(), "bad");
    assert!(ClientError::EmptyBody.message().contains("200 OK"));
    assert!(ClientError::NotFound.message().starts_with("404 Not Found"));
}

#[test]
fn github_error_messages() {
    let e = GithubError { status_code: None, help_str: Some("usage".to_owned()) };
    assert_eq!(e.message(), "usage");
    let e = GithubError { status_code: None, help_str: None };
    assert_eq!(e.message(), "(None, None)");
    let e = GithubError { status_code: Some(500), help_str: None };
    assert_eq!(e.message(), "(Some(code), None)");
}

#[test]
fn user_table_and_document() {
    let doc = parse_text("{\"login\":\"octocat\",\"id\":1,\"url\":\"https://api.github.com/users/octocat\"}").unwrap();
    let expected = format!(
        "{:<12} {:<10} {:<45}\n{:<12} {:<10} {:<45}\n",
        "login", "id", "url", "octocat", "1", "https://api.github.com/users/octocat"
    );
    assert_eq!(format_user_output(&doc), expected);
    let doc2 = parse_text("{\"login\":\"octocat\"}").unwrap();
    match build_single_user_output(response(200, Some(doc2)), true) {
        Ok(Rendered::Document(d)) => assert_eq!(d, parse_text("{\"login\":\"octocat\"}").unwrap()),
        other => panic!("unexpected {:?}", other),
    }
    let e = build_single_user_output(response(200, None), false).unwrap_err();
    assert_eq!(e.status_code, None);
}

#[test]
fn single_user_fails_on_other_statuses() {
    let e = single_user(response(403, None), false).unwrap_err();
    assert_eq!(e.status_code, Some(403));
    assert_eq!(e.help_str, Some(FORBIDDEN.to_owned()));
    let e = single_user(response(502, None), false).unwrap_err();
    assert_eq!(e.status_code, Some(502));
    let ok = single_user(response(200, Some(parse_text("{\"login\":\"x\"}").unwrap())), false).unwrap();
    assert!(text(ok).contains("x"));
}

#[test]
fn user_output_follows_classification() {
    let raw = RawResponse { status_code: 404, headers: Vec::new(), body: None };
    assert_eq!(user_output(raw, false), Err(ClientError::NotFound));
    let raw = RawResponse { status_code: 200, headers: Vec::new(), body: Some(b"{\"id\":7}".to_vec()) };
    match user_output(raw, true) {
        Ok(Rendered::Document(d)) => assert_eq!(d, parse_text("{\"id\":7}").unwrap()),
        other => panic!("unexpected {:?}", other),
    }
}

#[test]
fn public_user_decodes_optional_fields() {
    let body = "{\"login\":\"octocat\",\"id\":1,\"avatar_url\":\"a\",\"gravatar_id\":\"\",\"url\":\"u\",\
\"html_url\":\"h\",\"followers_url\":\"f\",\"following_url\":\"g\",\"gists_url\":\"gi\",\"starred_url\":\"s\",\
\"subscriptions_url\":\"su\",\"organizations_url\":\"o\",\"repos_url\":\"r\",\"events_url\":\"e\",\
\"received_events_url\":\"re\",\"site_admin\":false,\"name\":\"monalisa octocat\",\"company\":\"GitHub\",\
\"blog\":\"b\",\"location\":\"San Francisco\",\"email\":null,\"hireable\":false,\
\"public_repos\":2,\"public_gists\":1,\"following\":0,\"followers\":20,\
\"created_at\":\"2008-01-14T04:33:35Z\",\"updated_at\":\"2008-01-14T04:33:35Z\"}";
    let user = PublicUser::from_json(&parse_text(body).unwrap()).unwrap();
    assert_eq!(user.login, "octocat");
    assert_eq!(user.email, None);
    assert_eq!(user.bio, None);
    assert_eq!(user.followers, 20);
    assert!(!user.site_admin);
    let with_email = body.replace("\"email\":null", "\"email\":\"octocat@github.com\"");
    let user = PublicUser::from_json(&parse_text(&with_email).unwrap()).unwrap();
    assert_eq!(user.email, Some("octocat@github.com".to_owned()));
    let without_name = body.replace("\"name\":\"monalisa octocat\",", "");
    assert!(matches!(
        PublicUser::from_json(&parse_text(&without_name).unwrap()),
        Err(ClientError::DecodeFailure(_))
    ));
}

#[test]
fn reverse_reverses() {
    assert_eq!(reverse(&[1u32, 2, 3]), vec![3, 2, 1]);
    assert_eq!(reverse::<u32>(&[]), Vec::<u32>::new());
    assert_eq!(reverse(&["a".to_owned(), "b".to_owned()]), vec!["b".to_owned(), "a".to_owned()]);
}

fn prop_reverse_twice(xs: Vec<u32>) -> bool {
    xs == reverse(&reverse(&xs))
}

#[test]
fn prop_test() {
    quickcheck::quickcheck(prop_reverse_twice as fn(Vec<u32>) -> bool);
}
