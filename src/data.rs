//! The records that the API exchanges and the configuration of one run.

use vstd::prelude::*;

verus! {

/// A group as the listing endpoints describe it.
#[derive(Debug, Clone)]
pub struct GroupResponse {
    pub id: u64,
    pub name: String,
}

/// A project as the project listing describes it. It is matched against a
/// repository's remote by exact equality with one of its two URLs.
#[derive(Debug, Clone)]
pub struct ProjectResponse {
    pub id: u64,
    pub name: String,
    pub ssh_url_to_repo: String,
    pub http_url_to_repo: String,
}

/// One entry of a merge-request listing.
#[derive(Debug, Clone)]
pub struct MergeRequestResponse {
    pub id: u64,
    pub title: String,
    pub author: Author,
}

/// The author of a merge request.
#[derive(Debug, Clone)]
pub struct Author {
    pub id: u64,
    pub name: String,
    pub username: String,
}

/// The one field read from the answer to a merge-request creation.
#[derive(Debug, Clone)]
pub struct MRResponse {
    pub web_url: String,
}

/// The body sent to create a merge request.
#[derive(Debug, Clone)]
pub struct MRPayload {
    pub id: String,
    pub title: String,
    pub description: String,
    pub source_branch: String,
    pub target_branch: String,
    pub labels: String,
    pub remove_source_branch: bool,
    pub squash: bool,
}

/// What one invocation is configured with. Exactly one of `group` and `user`
/// is meant to be set; where both are, `group` wins.
#[derive(Debug, Clone)]
pub struct Config {
    pub group: Option<String>,
    pub user: Option<String>,
    pub password: Option<String>,
    pub apikey: Option<String>,
    pub ssh_key_file: Option<String>,
    pub ssh_passphrase: Option<String>,
    pub mr_labels: Option<Vec<String>>,
    pub host: String,
}

/// The host that the API is reached at when the configuration names none.
pub open spec fn default_host_spec() -> Seq<char> {
    "https://gitlab.com"@
}

/// The host used when the configuration file does not name one.
pub fn default_host() -> (r: String)
    ensures
        r@ == default_host_spec(),
{
    String::from_str("https://gitlab.com")
}

/// A merge request as the caller means it, before it is put on the wire.
#[derive(Debug, Clone)]
pub struct MRRequest<'a> {
    pub access_token: String,
    pub project: &'a ProjectResponse,
    pub title: String,
    pub description: String,
    pub source_branch: String,
    pub target_branch: String,
}

} // verus!
