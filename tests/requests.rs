use gh::config::Config;
use gh::github::{build_headers, build_headers_no_auth, get_user_orgs, get_user_public_orgs};
use gh::orgs::{ListOrgs, ListUserOrganizations};
use gh::request::{
    add_auth_header, add_base_headers, add_headers, build, build_authed_request_or_die,
    build_url_or_die, Header, Method, ACCEPT, USER_AGENT,
};
use gh::users::{
    build_get_public_user_request as build_public_user, build_get_user_endpoint,
    build_get_user_request, build_request,
};
use gh::error::ClientError;

const TEST_URL: &str = "https://api.github.com";

fn build_test_config() -> Config {
    Config { username: "octocat".to_owned(), access_token: "abcdefg1234567".to_owned() }
}

fn has(headers: &[Header], name: &str, value: &str) -> bool {
    headers.iter().any(|h| h.name == name && h.value == value)
}

fn parsed(endpoint: &str) -> String {
    build_url_or_die(endpoint).unwrap()
}

#[test]
fn test_add_headers() {
    let mut headers: Vec<Header> = Vec::new();
    let config = build_test_config();
    add_headers(&mut headers, &config);
    assert!(headers.len() == 3);
    assert!(has(&headers, "Accept", "application/vnd.github.v3+json; charset=utf-8"));
    assert!(has(&headers, "User-Agent", USER_AGENT));
    assert!(has(&headers, "Authorization", "Bearer abcdefg1234567"));
}

#[test]
fn test_add_base_headers() {
    let mut headers: Vec<Header> = Vec::new();
    add_base_headers(&mut headers);
    assert!(headers.len() == 2);
    assert!(has(&headers, "Accept", ACCEPT));
    assert!(has(&headers, "User-Agent", "gh/0.0.1-SNAPSHOT"));
}

#[test]
fn test_add_auth_header() {
    let mut headers: Vec<Header> = Vec::new();
    let config = build_test_config();
    add_auth_header(&mut headers, &config);
    assert!(headers.len() == 1);
    assert!(has(&headers, "Authorization", "Bearer abcdefg1234567"));
}

#[test]
fn add_headers_keeps_what_was_there() {
    let mut headers = vec![Header { name: "Host".to_owned(), value: "api.github.com".to_owned() }];
    add_headers(&mut headers, &build_test_config());
    assert_eq!(headers.len(), 4);
    assert_eq!(headers[0].name, "Host");
    assert_eq!(headers[3].name, "Authorization");
}

#[test]
fn test_build_url_or_die_success() {
    let endpoint = "https://api.github.com";
    let result = build_url_or_die(endpoint).unwrap();
    let url = hyper::Url::parse(endpoint).unwrap();
    assert_eq!(hyper::Url::parse(&result).unwrap(), url);
    assert_eq!(result, endpoint);
}

#[test]
fn setting_headers_replaces_values_in_place() {
    let mut headers = vec![
        Header { name: "user-agent".to_owned(), value: "curl".to_owned() },
        Header { name: "Host".to_owned(), value: "api.github.com".to_owned() },
        Header { name: "Accept".to_owned(), value: "*/*".to_owned() },
    ];
    add_base_headers(&mut headers);
    assert_eq!(headers.len(), 3);
    assert_eq!(headers[0], Header { name: "user-agent".to_owned(), value: USER_AGENT.to_owned() });
    assert_eq!(headers[1], Header { name: "Host".to_owned(), value: "api.github.com".to_owned() });
    assert_eq!(headers[2], Header { name: "Accept".to_owned(), value: ACCEPT.to_owned() });
    add_headers(&mut headers, &build_test_config());
    add_headers(&mut headers, &build_test_config());
    assert_eq!(headers.len(), 4);
}

#[test]
#[should_panic]
fn test_build_url_or_die_panic() {
    let endpoint = "this is not a valid url";
    let _url = build_url_or_die(endpoint).unwrap();
}

#[test]
fn malformed_url_is_a_transport_failure_naming_the_endpoint() {
    match build_url_or_die("this is not a valid url") {
        Err(ClientError::TransportFailure(m)) => {
            assert!(m.starts_with("Fatal error parsing endpoint this is not a valid url "));
            assert!(m.len() > "Fatal error parsing endpoint this is not a valid url ".len());
        }
        other => panic!("unexpected {:?}", other),
    }
}

#[test]
fn test_method() {
    let result = build_authed_request_or_die(Method::Get, &parsed(TEST_URL), &build_test_config());
    assert_eq!(Method::Get, result.method);
}

#[test]
#[should_panic]
fn test_method_panic() {
    let result = build_authed_request_or_die(Method::Post, &parsed(TEST_URL), &build_test_config());
    assert_eq!(Method::Get, result.method);
}

#[test]
fn test_url() {
    let result = build_authed_request_or_die(Method::Get, &parsed(TEST_URL), &build_test_config());
    assert_eq!(parsed(TEST_URL), result.url);
}

#[test]
#[should_panic]
fn test_url_panic() {
    let result = build_authed_request_or_die(
        Method::Get,
        &parsed("https://www.github.com"),
        &build_test_config(),
    );
    assert_eq!(parsed(TEST_URL), result.url);
}

#[test]
fn test_headers() {
    let result = build_authed_request_or_die(Method::Get, &parsed(TEST_URL), &build_test_config());
    let mut headers: Vec<Header> = Vec::new();
    add_headers(&mut headers, &build_test_config());
    assert_eq!(headers, result.headers);
}

#[test]
#[should_panic]
fn test_headers_panic() {
    let result = build_authed_request_or_die(Method::Get, &parsed(TEST_URL), &build_test_config());
    let headers: Vec<Header> = Vec::new();
    assert_eq!(headers, result.headers);
}

#[test]
fn test_build_get_user_endpoint() {
    assert_eq!(build_get_user_endpoint("octocat"), "https://api.github.com/users/octocat");
}

#[test]
fn test_build_get_user_request() {
    let request = build_get_user_request("octocat", &build_test_config()).unwrap();
    let url = build_url_or_die("https://api.github.com/users/octocat").unwrap();
    assert_eq!(request.url, url);
}

#[test]
fn test_build_request() {
    let request = build_request(&build_test_config()).unwrap();
    let url = build_url_or_die("https://api.github.com/user").unwrap();
    assert_eq!(request.url, url);
    assert!(has(&request.headers, "Authorization", "Bearer abcdefg1234567"));
}

#[test]
fn public_orgs_request_has_no_authorization() {
    let request = get_user_public_orgs("octocat").unwrap();
    assert_eq!(request.url, "https://api.github.com/users/octocat/orgs");
    assert_eq!(request.method, Method::Get);
    assert!(request.headers.iter().all(|h| h.name != "Authorization"));
    assert_eq!(request.headers, vec![
        Header { name: "User-Agent".to_owned(), value: "gh/0.0.1-SNAPSHOT".to_owned() },
        Header { name: "Accept".to_owned(), value: "application/vnd.github.v3+json".to_owned() },
    ]);
    assert!(request.body.is_none());
}

#[test]
fn endpoint_text_is_not_rewritten() {
    let request = get_user_public_orgs("a%20b").unwrap();
    assert_eq!(request.url, "https://api.github.com/users/a%20b/orgs");
}

#[test]
fn authed_orgs_request_carries_the_token() {
    let request = get_user_orgs(&build_test_config()).unwrap();
    assert_eq!(request.url, "https://api.github.com/user/orgs");
    assert_eq!(request.headers.len(), 3);
    assert!(has(&request.headers, "User-Agent", "gh/0.0.1-SNAPSHOT"));
    assert!(has(&request.headers, "Authorization", "token abcdefg1234567"));
}

#[test]
fn list_requests_name_their_endpoints() {
    let list = ListOrgs { config: build_test_config() };
    assert_eq!(list.as_request().unwrap().url, "https://api.github.com/user/orgs");
    let user = ListUserOrganizations { username: "octocat".to_owned(), config: build_test_config() };
    let request = user.as_request().unwrap();
    assert_eq!(request.url, "https://api.github.com/users/octocat/orgs");
    assert!(request.headers.iter().all(|h| h.name != "Authorization"));
    let public = build_public_user("octocat").unwrap();
    assert_eq!(public.url, "https://api.github.com/users/octocat");
    assert_eq!(public.headers.len(), 2);
}

#[test]
fn build_with_and_without_credentials() {
    let config = build_test_config();
    let authed = build(Method::Post, "https://api.github.com/user", Some(&config)).unwrap();
    assert_eq!(authed.method, Method::Post);
    assert_eq!(authed.headers.len(), 3);
    let anonymous = build(Method::Get, "https://api.github.com/user", None).unwrap();
    assert_eq!(anonymous.headers.len(), 2);
    assert!(matches!(build(Method::Get, "not a url", None), Err(ClientError::TransportFailure(_))));
}

#[test]
fn header_lists_for_both_kinds_of_request() {
    let authed = build_headers("t0k");
    assert_eq!(authed.len(), 3);
    assert!(has(&authed, "Authorization", "token t0k"));
    assert_eq!(build_headers_no_auth().len(), 2);
}

#[test]
fn config_clone_is_equal() {
    let config = build_test_config();
    assert_eq!(config.clone(), config);
}
