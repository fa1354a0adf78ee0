//! Creating a merge request: its wire payload, the JSON body, where it is
//! sent, and which project a repository remote belongs to.

use vstd::prelude::*;

use crate::data::{Config, MRPayload, MRRequest, ProjectResponse};
use crate::text::{decimal, decimal_string};

verus! {

/// The views of a list of strings.
pub open spec fn texts(v: Seq<String>) -> Seq<Seq<char>> {
    v.map_values(|s: String| s@)
}

/// The labels that the configuration lists; none where it lists none.
pub open spec fn configured_labels(c: Config) -> Seq<Seq<char>> {
    match c.mr_labels {
        Some(v) => texts(v@),
        None => Seq::empty(),
    }
}

/// The labels folded into one string from the empty string by
/// `acc + ", " + label`. Every label, the first included, is preceded by
/// `", "`: `["a", "b"]` gives `", a, b"` and no label gives `""`.
pub open spec fn joined_labels(labels: Seq<Seq<char>>) -> Seq<char>
    decreases labels.len(),
{
    if labels.len() == 0 {
        Seq::empty()
    } else {
        joined_labels(labels.drop_last()) + ", "@ + labels.last()
    }
}

/// Folds the labels into the one string that the wire payload carries.
pub fn join_labels(labels: &Vec<String>) -> (r: String)
    ensures
        r@ == joined_labels(texts(labels@)),
{
    let mut acc = String::new();
    let mut i: usize = 0;
    while i < labels.len()
        invariant
            i <= labels@.len(),
            acc@ == joined_labels(texts(labels@.subrange(0, i as int))),
        decreases labels@.len() - i,
    {
        acc.append(", ");
        acc.append(labels[i].as_str());
        proof {
            let next = texts(labels@.subrange(0, i + 1));
            assert(next.drop_last() =~= texts(labels@.subrange(0, i as int)));
            assert(next.last() == labels@[i as int]@);
        }
        i = i + 1;
    }
    assert(labels@.subrange(0, labels@.len() as int) =~= labels@);
    acc
}

/// Builds the wire payload for a merge request: the project's id written in
/// decimal, the request's own texts, the configured labels joined into one
/// string, and both policy flags set.
pub fn mr_payload(req: &MRRequest, config: &Config) -> (p: MRPayload)
    ensures
        p.id@ == decimal(req.project.id as nat),
        p.title@ == req.title@,
        p.description@ == req.description@,
        p.source_branch@ == req.source_branch@,
        p.target_branch@ == req.target_branch@,
        p.labels@ == joined_labels(configured_labels(*config)),
        p.remove_source_branch,
        p.squash,
{
    let labels = match &config.mr_labels {
        Some(v) => join_labels(v),
        None => String::new(),
    };
    MRPayload {
        id: decimal_string(req.project.id),
        title: req.title.clone(),
        description: req.description.clone(),
        source_branch: req.source_branch.clone(),
        target_branch: req.target_branch.clone(),
        labels,
        remove_source_branch: true,
        squash: true,
    }
}

/// The hex digit for `d` in `0..16`, lower case.
pub open spec fn hex_digit(d: int) -> char {
    "0123456789abcdef"@[d]
}

/// How one character stands inside a JSON string literal: `"` and `\` take a
/// backslash, the five named control characters take their short escapes,
/// the other characters below U+0020 are written `\u00` and two hex digits,
/// and every other character stands for itself.
pub open spec fn escaped_char(c: char) -> Seq<char> {
    if c == '"' {
        seq!['\\', '"']
    } else if c == '\\' {
        seq!['\\', '\\']
    } else if c == '\x08' {
        seq!['\\', 'b']
    } else if c == '\t' {
        seq!['\\', 't']
    } else if c == '\n' {
        seq!['\\', 'n']
    } else if c == '\x0c' {
        seq!['\\', 'f']
    } else if c == '\r' {
        seq!['\\', 'r']
    } else if (c as int) < 32 {
        seq!['\\', 'u', '0', '0', hex_digit((c as int) / 16), hex_digit((c as int) % 16)]
    } else {
        seq![c]
    }
}

/// The characters of `s`, each escaped as a JSON string literal needs.
pub open spec fn escaped_chars(s: Seq<char>) -> Seq<char>
    decreases s.len(),
{
    if s.len() == 0 {
        Seq::empty()
    } else {
        escaped_chars(s.drop_last()) + escaped_char(s.last())
    }
}

/// The JSON string literal for `s`: its escaped characters between quotes.
pub open spec fn json_string_of(s: Seq<char>) -> Seq<char> {
    seq!['"'] + escaped_chars(s) + seq!['"']
}

/// Relies on `serde_json::to_string` applied to a `str`: it writes the
/// string, escaped by serde_json's table, between quotes into a `Vec`, which
/// cannot fail, so the result is always `Ok`.
#[verifier::external_body]
fn json_string(s: &str) -> (r: Result<String, serde_json::Error>)
    ensures
        r is Ok,
        r matches Ok(t) ==> t@ == json_string_of(s@),
{
    serde_json::to_string(s)
}

/// `true` or `false`, as JSON writes a boolean.
pub open spec fn bool_text(b: bool) -> Seq<char> {
    if b {
        "true"@
    } else {
        "false"@
    }
}

/// The compact JSON object for a payload whose string fields are already
/// written as JSON string literals, with the fields in declaration order.
pub open spec fn payload_text(
    id: Seq<char>,
    title: Seq<char>,
    description: Seq<char>,
    source_branch: Seq<char>,
    target_branch: Seq<char>,
    labels: Seq<char>,
    remove_source_branch: bool,
    squash: bool,
) -> Seq<char> {
    "{\"id\":"@ + id + ",\"title\":"@ + title + ",\"description\":"@ + description
        + ",\"source_branch\":"@ + source_branch + ",\"target_branch\":"@ + target_branch
        + ",\"labels\":"@ + labels + ",\"remove_source_branch\":"@ + bool_text(
        remove_source_branch,
    ) + ",\"squash\":"@ + bool_text(squash) + "}"@
}

fn bool_str(b: bool) -> (r: &'static str)
    ensures
        r@ == bool_text(b),
{
    if b {
        "true"
    } else {
        "false"
    }
}

/// Frames the payload object around string fields that are already JSON
/// string literals.
pub fn frame_payload(
    id: &str,
    title: &str,
    description: &str,
    source_branch: &str,
    target_branch: &str,
    labels: &str,
    remove_source_branch: bool,
    squash: bool,
) -> (r: String)
    ensures
        r@ == payload_text(
            id@,
            title@,
            description@,
            source_branch@,
            target_branch@,
            labels@,
            remove_source_branch,
            squash,
        ),
{
    let mut out = String::from_str("{\"id\":");
    out.append(id);
    out.append(",\"title\":");
    out.append(title);
    out.append(",\"description\":");
    out.append(description);
    out.append(",\"source_branch\":");
    out.append(source_branch);
    out.append(",\"target_branch\":");
    out.append(target_branch);
    out.append(",\"labels\":");
    out.append(labels);
    out.append(",\"remove_source_branch\":");
    out.append(bool_str(remove_source_branch));
    out.append(",\"squash\":");
    out.append(bool_str(squash));
    out.append("}");
    assert(out@ =~= payload_text(
        id@,
        title@,
        description@,
        source_branch@,
        target_branch@,
        labels@,
        remove_source_branch,
        squash,
    ));
    out
}

/// The JSON text of a payload, its strings written by serde_json.
pub open spec fn payload_json(p: MRPayload) -> Seq<char> {
    payload_text(
        json_string_of(p.id@),
        json_string_of(p.title@),
        json_string_of(p.description@),
        json_string_of(p.source_branch@),
        json_string_of(p.target_branch@),
        json_string_of(p.labels@),
        p.remove_source_branch,
        p.squash,
    )
}

fn encode_field(s: &String) -> (r: String)
    ensures
        r@ == json_string_of(s@),
{
    match json_string(s.as_str()) {
        Ok(t) => t,
        Err(_) => vstd::pervasive::unreached(),
    }
}

/// Encodes a payload as the JSON body of a creation request.
pub fn encode_payload(p: &MRPayload) -> (r: String)
    ensures
        r@ == payload_json(*p),
{
    let id = encode_field(&p.id);
    let title = encode_field(&p.title);
    let description = encode_field(&p.description);
    let source_branch = encode_field(&p.source_branch);
    let target_branch = encode_field(&p.target_branch);
    let labels = encode_field(&p.labels);
    frame_payload(
        id.as_str(),
        title.as_str(),
        description.as_str(),
        source_branch.as_str(),
        target_branch.as_str(),
        labels.as_str(),
        p.remove_source_branch,
        p.squash,
    )
}

/// `{host}/api/v4/projects/{id}/merge_requests`.
pub open spec fn merge_requests_url(host: Seq<char>, project_id: nat) -> Seq<char> {
    host + "/api/v4/projects/"@ + decimal(project_id) + "/merge_requests"@
}

/// The URL that merge requests of a project are created at.
pub fn merge_request_url(host: &str, project_id: u64) -> (r: String)
    ensures
        r@ == merge_requests_url(host@, project_id as nat),
{
    let mut url = String::from_str(host);
    url.append("/api/v4/projects/");
    let id = decimal_string(project_id);
    url.append(id.as_str());
    url.append("/merge_requests");
    url
}

/// A POST that creates a merge request: where it goes, the token for the
/// `PRIVATE-TOKEN` header, and the JSON body.
#[derive(Debug, Clone)]
pub struct MRSubmission {
    pub url: String,
    pub access_token: String,
    pub body: String,
}

/// The JSON body that creates the merge request `req` under `config`.
pub open spec fn submission_body(req: MRRequest, config: Config) -> Seq<char> {
    payload_text(
        json_string_of(decimal(req.project.id as nat)),
        json_string_of(req.title@),
        json_string_of(req.description@),
        json_string_of(req.source_branch@),
        json_string_of(req.target_branch@),
        json_string_of(joined_labels(configured_labels(config))),
        true,
        true,
    )
}

/// Prepares the creation of the merge request `req`: the POST goes to the
/// project's merge requests on the configured host, with the request's token,
/// and carries the payload built by [`mr_payload`] as JSON.
pub fn submission(req: &MRRequest, config: &Config) -> (s: MRSubmission)
    ensures
        s.url@ == merge_requests_url(config.host@, req.project.id as nat),
        s.access_token@ == req.access_token@,
        s.body@ == submission_body(*req, *config),
{
    let payload = mr_payload(req, config);
    MRSubmission {
        url: merge_request_url(config.host.as_str(), req.project.id),
        access_token: req.access_token.clone(),
        body: encode_payload(&payload),
    }
}

/// `remote` is one of the project's two repository URLs, compared exactly.
pub open spec fn project_matches(p: ProjectResponse, remote: Seq<char>) -> bool {
    p.ssh_url_to_repo@ == remote || p.http_url_to_repo@ == remote
}

/// Finds the project that a repository remote belongs to: the first project
/// whose SSH or HTTP URL equals `remote` exactly. No normalisation is made: a
/// missing `.git` or another protocol is no match.
pub fn find_project(projects: &Vec<ProjectResponse>, remote: &String) -> (r: Option<usize>)
    ensures
        r matches Some(i) ==> i < projects@.len() && project_matches(projects@[i as int], remote@)
            && forall|j: int| 0 <= j < i ==> !project_matches(#[trigger] projects@[j], remote@),
        r is None <==> forall|j: int|
            0 <= j < projects@.len() ==> !project_matches(#[trigger] projects@[j], remote@),
{
    let mut i: usize = 0;
    while i < projects.len()
        invariant
            i <= projects@.len(),
            forall|j: int| 0 <= j < i ==> !project_matches(#[trigger] projects@[j], remote@),
        decreases projects@.len() - i,
    {
        let p = &projects[i];
        if p.ssh_url_to_repo == *remote || p.http_url_to_repo == *remote {
            return Some(i);
        }
        i = i + 1;
    }
    None
}

} // verus!
