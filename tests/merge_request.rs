use glpm::data::{Config, MRPayload, MRRequest, ProjectResponse};
use glpm::error::HttpError;
use glpm::merge_request::{
    encode_payload, find_project, frame_payload, join_labels, merge_request_url, mr_payload,
    submission,
};
use glpm::paging::check_status;

fn config(labels: Option<Vec<&str>>) -> Config {
    Config {
        group: Some("grp".to_string()),
        user: None,
        password: None,
        apikey: None,
        ssh_key_file: None,
        ssh_passphrase: None,
        mr_labels: labels.map(|v| v.into_iter().map(|l| l.to_string()).collect()),
        host: "https://gitlab.com".to_string(),
    }
}

fn project(id: u64, name: &str) -> ProjectResponse {
    ProjectResponse {
        id,
        name: name.to_string(),
        ssh_url_to_repo: format!("git@gitlab.com:grp/{}.git", name),
        http_url_to_repo: format!("https://gitlab.com/grp/{}.git", name),
    }
}

fn request(p: &ProjectResponse) -> MRRequest<'_> {
    MRRequest {
        access_token: "tok".to_string(),
        project: p,
        title: "t".to_string(),
        description: "d".to_string(),
        source_branch: "feature".to_string(),
        target_branch: "master".to_string(),
    }
}

#[test]
fn labels_keep_leading_separator() {
    assert_eq!(join_labels(&vec![]), "");
    assert_eq!(join_labels(&vec!["a".to_string()]), ", a");
    assert_eq!(join_labels(&vec!["a".to_string(), "b".to_string()]), ", a, b");
}

#[test]
fn payload_shape() {
    let p = project(42, "demo");
    let payload = mr_payload(&request(&p), &config(Some(vec!["a", "b"])));
    assert_eq!(payload.id, "42");
    assert_eq!(payload.title, "t");
    assert_eq!(payload.description, "d");
    assert_eq!(payload.source_branch, "feature");
    assert_eq!(payload.target_branch, "master");
    assert_eq!(payload.labels, ", a, b");
    assert!(payload.squash);
    assert!(payload.remove_source_branch);
}

#[test]
fn payload_without_labels() {
    let p = project(7, "demo");
    let payload = mr_payload(&request(&p), &config(None));
    assert_eq!(payload.id, "7");
    assert_eq!(payload.labels, "");
}

#[test]
fn payload_encodes_as_json() {
    let p = project(42, "demo");
    let payload = mr_payload(&request(&p), &config(Some(vec!["a", "b"])));
    let json = encode_payload(&payload);
    assert_eq!(
        json,
        r#"{"id":"42","title":"t","description":"d","source_branch":"feature","target_branch":"master","labels":", a, b","remove_source_branch":true,"squash":true}"#
    );
    let v: serde_json::Value = serde_json::from_str(&json).unwrap();
    assert_eq!(v["id"], serde_json::Value::String("42".to_string()));
    assert_eq!(v["squash"], serde_json::Value::Bool(true));
}

#[test]
fn payload_strings_are_escaped() {
    let payload = MRPayload {
        id: "1".to_string(),
        title: "say \"hi\"".to_string(),
        description: "line\nbreak \\ tab\t".to_string(),
        source_branch: "a".to_string(),
        target_branch: "b".to_string(),
        labels: String::new(),
        remove_source_branch: false,
        squash: true,
    };
    let json = encode_payload(&payload);
    assert_eq!(
        json,
        r#"{"id":"1","title":"say \"hi\"","description":"line\nbreak \\ tab\t","source_branch":"a","target_branch":"b","labels":"","remove_source_branch":false,"squash":true}"#
    );
    let v: serde_json::Value = serde_json::from_str(&json).unwrap();
    assert_eq!(v["title"].as_str(), Some("say \"hi\""));
}

#[test]
fn frame_around_encoded_fields() {
    let s = frame_payload("\"1\"", "\"t\"", "\"\"", "\"s\"", "\"m\"", "\"\"", true, false);
    assert_eq!(
        s,
        r#"{"id":"1","title":"t","description":"","source_branch":"s","target_branch":"m","labels":"","remove_source_branch":true,"squash":false}"#
    );
}

#[test]
fn merge_request_endpoint() {
    assert_eq!(
        merge_request_url("https://gitlab.com", 42),
        "https://gitlab.com/api/v4/projects/42/merge_requests"
    );
}

#[test]
fn submission_targets_project() {
    let p = project(42, "demo");
    let mut c = config(Some(vec!["x"]));
    c.host = "https://git.example.org".to_string();
    let s = submission(&request(&p), &c);
    assert_eq!(s.url, "https://git.example.org/api/v4/projects/42/merge_requests");
    assert_eq!(s.access_token, "tok");
    assert_eq!(
        s.body,
        r#"{"id":"42","title":"t","description":"d","source_branch":"feature","target_branch":"master","labels":", x","remove_source_branch":true,"squash":true}"#
    );
}

#[test]
fn submission_status_outcomes() {
    let p = project(42, "demo");
    let s = submission(&request(&p), &config(None));
    assert_eq!(s.url, "https://gitlab.com/api/v4/projects/42/merge_requests");
    assert_eq!(s.access_token, "tok");
    assert!(check_status(201).is_ok());
    assert!(matches!(check_status(422), Err(HttpError::UnsuccessFulError(422))));
}

#[test]
fn control_characters_are_escaped() {
    let payload = MRPayload {
        id: "1".to_string(),
        title: "a\u{1}b\u{1f}c\u{8}\u{c}\r".to_string(),
        description: "caf\u{e9} \u{7f}".to_string(),
        source_branch: "s".to_string(),
        target_branch: "m".to_string(),
        labels: String::new(),
        remove_source_branch: true,
        squash: true,
    };
    let json = encode_payload(&payload);
    assert!(json.contains(r#""title":"a\u0001b\u001fc\b\f\r""#));
    assert!(json.contains("\"description\":\"caf\u{e9} \u{7f}\""));
}

#[test]
fn project_found_by_http_url() {
    let projects = vec![project(1, "one"), project(2, "two"), project(3, "three")];
    let remote = "https://gitlab.com/grp/two.git".to_string();
    assert_eq!(find_project(&projects, &remote), Some(1));
}

#[test]
fn project_found_by_ssh_url() {
    let projects = vec![project(1, "one"), project(2, "two")];
    let remote = "git@gitlab.com:grp/one.git".to_string();
    assert_eq!(find_project(&projects, &remote), Some(0));
}

#[test]
fn project_not_found_without_exact_match() {
    let projects = vec![project(1, "one"), project(2, "two")];
    assert_eq!(find_project(&projects, &"https://gitlab.com/grp/three.git".to_string()), None);
    assert_eq!(find_project(&projects, &"https://gitlab.com/grp/one".to_string()), None);
    assert_eq!(find_project(&projects, &"http://gitlab.com/grp/one.git".to_string()), None);
    assert_eq!(find_project(&Vec::new(), &"https://gitlab.com/grp/one.git".to_string()), None);
}

#[test]
fn first_matching_project_wins() {
    let projects = vec![project(1, "one"), project(9, "one")];
    assert_eq!(find_project(&projects, &"https://gitlab.com/grp/one.git".to_string()), Some(0));
}

#[test]
fn error_descriptions() {
    assert_eq!(HttpError::UnsuccessFulError(404).description(), "unsuccessful request");
    assert_eq!(HttpError::ConfigError().description(), "invalid config provided - no group");
    let bad = serde_json::from_str::<u32>("x").unwrap_err();
    let e = HttpError::from(bad);
    assert!(matches!(e, HttpError::JsonError(_)));
    assert_eq!(e.description(), "serde json error");
    let built = hyper::Request::builder().uri("not a uri").body(()).unwrap_err();
    let e = HttpError::from(built);
    assert!(matches!(e, HttpError::HyperHttpError(_)));
    assert_eq!(e.description(), "hyper http error");
}
