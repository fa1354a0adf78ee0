use glpm::data::{default_host, Config};
use glpm::error::HttpError;
use glpm::request::{continuation_request, request_for_page, TOKEN_HEADER};

fn config(group: Option<&str>, user: Option<&str>) -> Config {
    Config {
        group: group.map(|g| g.to_string()),
        user: user.map(|u| u.to_string()),
        password: None,
        apikey: Some("key".to_string()),
        ssh_key_file: None,
        ssh_passphrase: None,
        mr_labels: None,
        host: "https://gitlab.example.com".to_string(),
    }
}

#[test]
fn default_host_is_gitlab_com() {
    assert_eq!(default_host(), "https://gitlab.com");
}

#[test]
fn token_header_name() {
    assert_eq!(TOKEN_HEADER, "PRIVATE-TOKEN");
}

#[test]
fn group_request_url_and_token() {
    let c = config(Some("mygroup"), None);
    let r = request_for_page(&c, "tok", "projects", 20, 1).unwrap();
    assert_eq!(
        r.url,
        "https://gitlab.example.com/api/v4/groups/mygroup/projects?per_page=20&page=1"
    );
    assert_eq!(r.access_token, "tok");
}

#[test]
fn user_request_when_no_group() {
    let c = config(None, Some("alice"));
    let r = request_for_page(&c, "tok", "projects", 20, 1).unwrap();
    assert_eq!(
        r.url,
        "https://gitlab.example.com/api/v4/users/alice/projects?per_page=20&page=1"
    );
}

#[test]
fn group_wins_over_user() {
    let c = config(Some("mygroup"), Some("alice"));
    let first = request_for_page(&c, "tok", "merge_requests", 20, 1).unwrap();
    assert_eq!(
        first.url,
        "https://gitlab.example.com/api/v4/groups/mygroup/merge_requests?per_page=20&page=1"
    );
    let next = continuation_request(&c, "tok", "merge_requests", 20, 2).unwrap();
    assert_eq!(
        next.url,
        "https://gitlab.example.com/api/v4/groups/mygroup/merge_requests?per_page=20&page=2"
    );
    assert!(!first.url.contains("users"));
    assert!(!next.url.contains("users"));
}

#[test]
fn no_scope_is_config_error() {
    let c = config(None, None);
    let r = request_for_page(&c, "tok", "projects", 20, 1);
    assert!(matches!(r, Err(HttpError::ConfigError())));
}

#[test]
fn continuation_needs_group() {
    let c = config(None, Some("alice"));
    let r = continuation_request(&c, "tok", "projects", 20, 2);
    assert!(matches!(r, Err(HttpError::ConfigError())));
}

#[test]
fn page_numbers_written_in_decimal() {
    let c = config(Some("g"), None);
    let r = continuation_request(&c, "tok", "projects", 100, 1234).unwrap();
    assert_eq!(
        r.url,
        "https://gitlab.example.com/api/v4/groups/g/projects?per_page=100&page=1234"
    );
}
