//! Fetching all pages of a listing: what follows the first page, how the
//! follow-up pages are put in order, and how their entries are joined.

use vstd::prelude::*;

use crate::data::Config;
use crate::error::HttpError;
use crate::request::{continuation_request, group_segment, is_request_for, PageRequest};
use crate::text::{parse_decimal_i32, parse_i32};

verus! {

/// The response header that tells how many pages a listing has.
pub const TOTAL_PAGES_HEADER: &'static str = "x-total-pages";

/// The number of entries asked for on each page of a listing.
pub const PER_PAGE: u32 = 20;

/// A status in the success range 200..=299.
pub open spec fn is_success(status: u16) -> bool {
    200 <= status <= 299
}

/// Accepts a response status in the success range; any other status is the
/// failure that carries it.
pub fn check_status(status: u16) -> (r: Result<(), HttpError>)
    ensures
        r is Ok <==> is_success(status),
        !is_success(status) ==> r == Err::<(), HttpError>(HttpError::UnsuccessFulError(status)),
{
    if 200 <= status && status <= 299 {
        Ok(())
    } else {
        Err(HttpError::UnsuccessFulError(status))
    }
}

/// The page count that the `x-total-pages` header tells: its value where it
/// reads as an `i32`, and 0 where it is absent or does not read as one.
pub open spec fn total_pages_spec(header: Option<Seq<u8>>) -> int {
    match header {
        Some(h) => match parse_i32(h) {
            Some(v) => v,
            None => 0,
        },
        None => 0,
    }
}

/// The bytes of a header that may be absent.
pub open spec fn header_bytes(header: Option<&[u8]>) -> Option<Seq<u8>> {
    match header {
        Some(h) => Some(h@),
        None => None,
    }
}

/// Reads the page count from the raw bytes of the `x-total-pages` header.
/// A missing or unreadable header is no error: it counts as 0, so that an
/// endpoint without pagination still gives its one page.
pub fn total_pages(header: Option<&[u8]>) -> (r: i32)
    ensures
        r as int == total_pages_spec(header_bytes(header)),
{
    match header {
        Some(h) => match parse_decimal_i32(h) {
            Some(v) => v,
            None => 0,
        },
        None => 0,
    }
}

/// How many pages follow the first one when the listing has `total` pages.
pub open spec fn follow_up_count(total: int) -> int {
    if total >= 2 {
        total - 1
    } else {
        0
    }
}

/// The requests for pages `2..=total`, in page order, each built under the
/// group scope (see [`continuation_request`]).
pub fn continuation_requests(
    config: &Config,
    access_token: &str,
    domain: &str,
    per_page: u32,
    total: i32,
) -> (r: Vec<Result<PageRequest, HttpError>>)
    ensures
        r@.len() == follow_up_count(total as int),
        forall|i: int|
            0 <= i < r@.len() ==> is_request_for(
                #[trigger] r@[i],
                group_segment(*config),
                config.host@,
                access_token@,
                domain@,
                per_page as nat,
                (i + 2) as nat,
            ),
{
    let mut out: Vec<Result<PageRequest, HttpError>> = Vec::new();
    if total < 2 {
        return out;
    }
    let mut page: i64 = 2;
    while page <= total as i64
        invariant
            2 <= page <= total + 1,
            out@.len() == page - 2,
            forall|i: int|
                0 <= i < out@.len() ==> is_request_for(
                    #[trigger] out@[i],
                    group_segment(*config),
                    config.host@,
                    access_token@,
                    domain@,
                    per_page as nat,
                    (i + 2) as nat,
                ),
        decreases total as i64 + 1 - page,
    {
        let q = continuation_request(config, access_token, domain, per_page, page as u32);
        out.push(q);
        page = page + 1;
    }
    out
}

/// Decides what follows the first page of a listing, from its status and
/// its `x-total-pages` header: a failed status ends the listing with that
/// failure; otherwise the follow-up requests for pages `2..=total` are due,
/// none where the header is missing or tells at most one page.
pub fn after_first_page(
    config: &Config,
    access_token: &str,
    domain: &str,
    per_page: u32,
    status: u16,
    header: Option<&[u8]>,
) -> (r: Result<Vec<Result<PageRequest, HttpError>>, HttpError>)
    ensures
        !is_success(status) ==> r == Err::<Vec<Result<PageRequest, HttpError>>, HttpError>(
            HttpError::UnsuccessFulError(status),
        ),
        r is Ok <==> is_success(status),
        r matches Ok(reqs) ==> reqs@.len() == follow_up_count(total_pages_spec(header_bytes(header)))
            && forall|i: int|
            0 <= i < reqs@.len() ==> is_request_for(
                #[trigger] reqs@[i],
                group_segment(*config),
                config.host@,
                access_token@,
                domain@,
                per_page as nat,
                (i + 2) as nat,
            ),
{
    match check_status(status) {
        Ok(()) => {},
        Err(e) => {
            return Err(e);
        },
    }
    let total = total_pages(header);
    Ok(continuation_requests(config, access_token, domain, per_page, total))
}

/// Every result in `s` is a success.
pub open spec fn all_ok<T>(s: Seq<Result<T, HttpError>>) -> bool {
    forall|i: int| 0 <= i < s.len() ==> #[trigger] s[i] is Ok
}

/// The values of a sequence of results that all succeeded.
pub open spec fn ok_values<T>(s: Seq<Result<T, HttpError>>) -> Seq<T> {
    s.map_values(|r: Result<T, HttpError>| r->Ok_0)
}

/// `s[k]` is the first failure in `s`.
pub open spec fn is_first_error<T>(s: Seq<Result<T, HttpError>>, k: int) -> bool {
    &&& 0 <= k < s.len()
    &&& s[k] is Err
    &&& forall|j: int| 0 <= j < k ==> #[trigger] s[j] is Ok
}

/// Puts the first page and the follow-up pages together, in page order.
/// Where any follow-up page failed, the whole listing fails, with the failure
/// of the lowest such page, and no page is returned.
pub fn collect_pages<T>(first: T, rest: Vec<Result<T, HttpError>>) -> (r: Result<
    Vec<T>,
    HttpError,
>)
    ensures
        r is Ok <==> all_ok(rest@),
        r matches Ok(v) ==> v@ == seq![first] + ok_values(rest@),
        r matches Err(e) ==> exists|k: int|
            is_first_error(rest@, k) && #[trigger] rest@[k] == Err::<T, HttpError>(e),
{
    let ghost orig = rest@;
    let n: usize = rest.len();
    let mut remaining = rest;
    let mut out: Vec<T> = Vec::new();
    out.push(first);
    let mut done: usize = 0;
    while remaining.len() > 0
        invariant
            n as int == orig.len(),
            orig == rest@,
            done <= n,
            remaining@ == orig.subrange(done as int, n as int),
            out@ == seq![first] + ok_values(orig.subrange(0, done as int)),
            forall|j: int| 0 <= j < done ==> #[trigger] orig[j] is Ok,
        decreases remaining@.len(),
    {
        let item = remaining.remove(0);
        assert(item == orig[done as int]);
        match item {
            Ok(page) => {
                out.push(page);
                proof {
                    assert(ok_values(orig.subrange(0, done + 1)) =~= ok_values(
                        orig.subrange(0, done as int),
                    ).push(page));
                }
                done = done + 1;
            },
            Err(e) => {
                assert(orig[done as int] is Err);
                assert(!all_ok(orig));
                assert(is_first_error(orig, done as int));
                assert(orig[done as int] == Err::<T, HttpError>(e));
                return Err(e);
            },
        }
    }
    assert(orig.subrange(0, n as int) =~= orig);
    Ok(out)
}

/// All the entries of a sequence of pages, page after page.
pub open spec fn concat_all<T>(pages: Seq<Seq<T>>) -> Seq<T>
    decreases pages.len(),
{
    if pages.len() == 0 {
        Seq::empty()
    } else {
        concat_all(pages.drop_last()) + pages.last()
    }
}

/// The entries of each decoded page.
pub open spec fn page_entries<T>(s: Seq<Result<Vec<T>, HttpError>>) -> Seq<Seq<T>> {
    s.map_values(|r: Result<Vec<T>, HttpError>| r->Ok_0@)
}

/// Joins the decoded pages of a listing into one collection, in page order.
/// A page that could not be decoded fails the whole listing with its failure
/// (the first such page's), and nothing is returned.
pub fn aggregate<T>(pages: Vec<Result<Vec<T>, HttpError>>) -> (r: Result<Vec<T>, HttpError>)
    ensures
        r is Ok <==> all_ok(pages@),
        r matches Ok(v) ==> v@ == concat_all(page_entries(pages@)),
        r matches Err(e) ==> exists|k: int|
            is_first_error(pages@, k) && #[trigger] pages@[k] == Err::<Vec<T>, HttpError>(e),
{
    let ghost orig = pages@;
    let n: usize = pages.len();
    let mut remaining = pages;
    let mut out: Vec<T> = Vec::new();
    let mut done: usize = 0;
    while remaining.len() > 0
        invariant
            n as int == orig.len(),
            orig == pages@,
            done <= n,
            remaining@ == orig.subrange(done as int, n as int),
            out@ == concat_all(page_entries(orig.subrange(0, done as int))),
            forall|j: int| 0 <= j < done ==> #[trigger] orig[j] is Ok,
        decreases remaining@.len(),
    {
        let item = remaining.remove(0);
        assert(item == orig[done as int]);
        match item {
            Ok(entries) => {
                let mut entries = entries;
                out.append(&mut entries);
                proof {
                    let s = page_entries(orig.subrange(0, done + 1));
                    assert(s.drop_last() =~= page_entries(orig.subrange(0, done as int)));
                    assert(s.last() == orig[done as int]->Ok_0@);
                }
                done = done + 1;
            },
            Err(e) => {
                assert(orig[done as int] is Err);
                assert(!all_ok(orig));
                assert(is_first_error(orig, done as int));
                assert(orig[done as int] == Err::<Vec<T>, HttpError>(e));
                return Err(e);
            },
        }
    }
    assert(orig.subrange(0, n as int) =~= orig);
    Ok(out)
}

/// A listing whose first page reports `n >= 1` pages is fetched in exactly `n`
/// requests: the first, and one follow-up for each of pages `2..=n`. When all
/// of them succeed, the collected bodies are exactly those `n`, the first
/// page's at the front and the body of page `i + 2` at place `i + 1`, whatever order
/// the follow-ups completed in.
pub proof fn pagination_complete<B>(n: int, first: B, rest: Seq<Result<B, HttpError>>)
    requires
        n >= 1,
        rest.len() == follow_up_count(n),
        all_ok(rest),
    ensures
        1 + follow_up_count(n) == n,
        (seq![first] + ok_values(rest)).len() == n,
        (seq![first] + ok_values(rest))[0] == first,
        forall|i: int|
            0 <= i < n - 1 ==> (seq![first] + ok_values(rest))[i + 1] == (#[trigger] rest[i])->Ok_0,
{
    assert forall|i: int| 0 <= i < n - 1 implies (seq![first] + ok_values(rest))[i + 1] == (
    #[trigger] rest[i])->Ok_0 by {
        assert((seq![first] + ok_values(rest))[i + 1] == ok_values(rest)[i]);
    }
}

/// The entries of a listing are those of its pages, page after page: the
/// entries of the first pages, then those of the last one.
pub proof fn entries_in_page_order<T>(pages: Seq<Result<Vec<T>, HttpError>>, last: Vec<T>)
    ensures
        concat_all(page_entries(pages.push(Ok(last)))) == concat_all(page_entries(pages)) + last@,
{
    assert(page_entries(pages.push(Ok(last))).drop_last() =~= page_entries(pages));
}

/// One failed follow-up page is enough for the listing to fail: the collected
/// result is a success only where every follow-up page succeeded.
pub proof fn fail_fast<B>(rest: Seq<Result<B, HttpError>>, k: int)
    requires
        0 <= k < rest.len(),
        rest[k] is Err,
    ensures
        !all_ok(rest),
{
}

/// A response without an `x-total-pages` header leaves no follow-up page to
/// fetch: the listing is its first page alone, and no error.
pub proof fn missing_header_is_one_page(header: Option<Seq<u8>>)
    requires
        header is None,
    ensures
        total_pages_spec(header) == 0,
        follow_up_count(total_pages_spec(header)) == 0,
{
}

} // verus!
