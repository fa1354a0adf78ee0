//! Building the GET requests for the pages of a listing.

use vstd::prelude::*;

use crate::data::Config;
use crate::error::HttpError;
use crate::text::{decimal, decimal_string};

verus! {

/// The header that carries the access token.
pub const TOKEN_HEADER: &'static str = "PRIVATE-TOKEN";

/// A GET request for one page of a listing: its full URL, and the token sent
/// in the `PRIVATE-TOKEN` header.
#[derive(Debug, Clone)]
pub struct PageRequest {
    pub url: String,
    pub access_token: String,
}

/// The path segment that names the configured scope: the group where one is
/// configured, else the user, else none.
pub open spec fn scope_segment(c: Config) -> Option<Seq<char>> {
    match c.group {
        Some(g) => Some("groups/"@ + g@),
        None => match c.user {
            Some(u) => Some("users/"@ + u@),
            None => None,
        },
    }
}

/// The path segment for follow-up pages, which only a group scope has.
pub open spec fn group_segment(c: Config) -> Option<Seq<char>> {
    match c.group {
        Some(g) => Some("groups/"@ + g@),
        None => None,
    }
}

/// `{host}/api/v4/{scope}/{domain}?per_page={per_page}&page={page}`.
pub open spec fn listing_url(
    host: Seq<char>,
    scope: Seq<char>,
    domain: Seq<char>,
    per_page: nat,
    page: nat,
) -> Seq<char> {
    host + "/api/v4/"@ + scope + "/"@ + domain + "?per_page="@ + decimal(per_page) + "&page="@
        + decimal(page)
}

/// `r` is the request for `page` under the scope segment `scope`, or, where
/// there is no segment, the configuration error.
pub open spec fn is_request_for(
    r: Result<PageRequest, HttpError>,
    scope: Option<Seq<char>>,
    host: Seq<char>,
    token: Seq<char>,
    domain: Seq<char>,
    per_page: nat,
    page: nat,
) -> bool {
    match scope {
        Some(seg) => r matches Ok(q) && q.url@ == listing_url(host, seg, domain, per_page, page)
            && q.access_token@ == token,
        None => r matches Err(HttpError::ConfigError()),
    }
}

fn build_url(
    host: &str,
    kind: &str,
    id: &str,
    domain: &str,
    per_page: u32,
    page: u32,
) -> (r: String)
    ensures
        r@ == listing_url(host@, kind@ + id@, domain@, per_page as nat, page as nat),
{
    let mut url = String::from_str(host);
    url.append("/api/v4/");
    url.append(kind);
    url.append(id);
    url.append("/");
    url.append(domain);
    url.append("?per_page=");
    let pp = decimal_string(per_page as u64);
    url.append(pp.as_str());
    url.append("&page=");
    let pg = decimal_string(page as u64);
    url.append(pg.as_str());
    assert(url@ =~= listing_url(host@, kind@ + id@, domain@, per_page as nat, page as nat));
    url
}

/// Builds the request for `page` of the listing `domain` under the configured
/// scope. A configured group takes precedence over a configured user; with
/// neither, nothing is built and the configuration error is returned.
pub fn request_for_page(
    config: &Config,
    access_token: &str,
    domain: &str,
    per_page: u32,
    page: u32,
) -> (r: Result<PageRequest, HttpError>)
    ensures
        is_request_for(
            r,
            scope_segment(*config),
            config.host@,
            access_token@,
            domain@,
            per_page as nat,
            page as nat,
        ),
{
    let url = match &config.group {
        Some(g) => build_url(config.host.as_str(), "groups/", g.as_str(), domain, per_page, page),
        None => match &config.user {
            Some(u) => build_url(config.host.as_str(), "users/", u.as_str(), domain, per_page, page),
            None => {
                return Err(HttpError::ConfigError());
            },
        },
    };
    Ok(PageRequest { url, access_token: String::from_str(access_token) })
}

/// Builds the request for a follow-up page of the listing `domain`. Follow-up
/// pages are only fetched under a group scope: without a configured group
/// this gives the configuration error, even where a user is configured.
pub fn continuation_request(
    config: &Config,
    access_token: &str,
    domain: &str,
    per_page: u32,
    page: u32,
) -> (r: Result<PageRequest, HttpError>)
    ensures
        is_request_for(
            r,
            group_segment(*config),
            config.host@,
            access_token@,
            domain@,
            per_page as nat,
            page as nat,
        ),
{
    match &config.group {
        Some(g) => Ok(
            PageRequest {
                url: build_url(config.host.as_str(), "groups/", g.as_str(), domain, per_page, page),
                access_token: String::from_str(access_token),
            },
        ),
        None => Err(HttpError::ConfigError()),
    }
}

/// With both a group and a user configured, every request of a listing, the
/// first page and the follow-ups alike, goes to the group's endpoint.
pub proof fn group_takes_precedence(c: Config)
    requires
        c.group is Some,
        c.user is Some,
    ensures
        scope_segment(c) == Some("groups/"@ + c.group->Some_0@),
        group_segment(c) == scope_segment(c),
{
}

} // verus!
