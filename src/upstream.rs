//! What the proxy asks upstream and how it reads the answers: request URLs,
//! conditional headers, size limits on crate downloads, and fetch errors.

use vstd::prelude::*;

use crate::config_json::{crates_api_path, crates_api_path_chars};
use crate::crate_info::{download_url_of, CrateInfo};
use crate::http_date::http_date_text;
use crate::index_entry::{index_path_of, with_atime, with_etag, IndexEntry, IndexEntryView};
use crate::http_date::http_date_secs;
use crate::response::{format_json_error, json_error_of, json_response, json_view, ProxyResponse};
use crate::text::{chars_of, string_of};
use crate::url_text::{join_url, url_join_text};

verus! {

/// The largest crate archive the proxy downloads: 16 MiB.
pub const MAX_CRATE_SIZE: usize = 0x100_0000;

/// Why a fetch from upstream gave no usable answer.
#[derive(Debug)]
pub enum FetchError {
    /// Upstream answered with an error status, or the answer broke a limit of the
    /// proxy's: the status to pass on, and the body as text, or the error met
    /// reading it as text.
    Upstream { status: u16, body: Result<String, String> },
    /// Upstream could not be reached or its answer could not be read.
    Transport(String),
}

/// A fetch error as plain values.
pub ghost enum FetchErrorView {
    Upstream { status: u16, body: Result<Seq<char>, Seq<char>> },
    Transport(Seq<char>),
}

impl View for FetchError {
    type V = FetchErrorView;

    open spec fn view(&self) -> FetchErrorView {
        match self {
            FetchError::Upstream { status, body } => FetchErrorView::Upstream {
                status: *status,
                body: match body {
                    Ok(t) => Ok(t@),
                    Err(e) => Err(e@),
                },
            },
            FetchError::Transport(e) => FetchErrorView::Transport(e@),
        }
    }
}

/// The error for a `Content-Length` that is no number.
pub open spec fn invalid_header_error() -> FetchErrorView {
    FetchErrorView::Upstream { status: 400, body: Ok("Invalid header"@) }
}

/// The error for a crate archive over the size limit.
pub open spec fn too_large_error() -> FetchErrorView {
    FetchErrorView::Upstream { status: 507, body: Ok("Insufficient storage"@) }
}

/// The response that reports a fetch error to the client: upstream's status with
/// its body, or the JSON error envelope where the body was no text; `502 Bad
/// Gateway` with the envelope where upstream was not reached.
pub open spec fn fetch_error_view(e: FetchErrorView) -> crate::response::ResponseView {
    match e {
        FetchErrorView::Upstream { status, body } => match body {
            Ok(text) => json_view(status, text),
            Err(why) => json_view(status, json_error_of(why)),
        },
        FetchErrorView::Transport(why) => json_view(502, json_error_of(why)),
    }
}

/// The response that reports a fetch error to the client.
pub fn fetch_error_response(error: FetchError) -> (r: ProxyResponse)
    ensures
        r@ == fetch_error_view(error@),
{
    match error {
        FetchError::Upstream { status, body } => match body {
            Ok(text) => json_response(status, text),
            Err(why) => json_response(status, format_json_error(why.as_str())),
        },
        FetchError::Transport(why) => json_response(502, format_json_error(why.as_str())),
    }
}

/// How much of a crate download to read.
#[derive(Clone, Copy, Debug, PartialEq, Eq, Structural)]
pub enum CrateBodyLimit {
    /// The length that `Content-Length` announced, within the limit.
    Exact(usize),
    /// No length announced: read up to `MAX_CRATE_SIZE` bytes.
    Capped,
}

/// Whether `c` is an ASCII decimal digit.
pub open spec fn is_digit(c: char) -> bool {
    '0' <= c && c <= '9'
}

/// The number that a run of decimal digits writes.
pub open spec fn digits_value(s: Seq<char>) -> nat
    decreases s.len(),
{
    if s.len() == 0 {
        0
    } else {
        digits_value(s.drop_last()) * 10 + ((s.last() as u32) - ('0' as u32)) as nat
    }
}

/// `s` without the one `+` it may start with.
pub open spec fn unsigned_part(s: Seq<char>) -> Seq<char> {
    if s.len() > 0 && s[0] == '+' {
        s.skip(1)
    } else {
        s
    }
}

/// Whether `d` is all decimal digits.
pub open spec fn all_digits(d: Seq<char>) -> bool {
    forall|i: int| 0 <= i < d.len() ==> is_digit(#[trigger] d[i])
}

/// The number a decimal text writes: digits, at least one, after an optional `+`.
pub open spec fn decimal_value(s: Seq<char>) -> Option<nat> {
    let d = unsigned_part(s);
    if d.len() > 0 && all_digits(d) {
        Some(digits_value(d))
    } else {
        None
    }
}

/// The number written by `s`, or `bound + 1` where it is larger than `bound`;
/// `None` where `s` writes no number.
fn decimal_capped(s: &str, bound: u64) -> (r: Option<u64>)
    requires
        bound < 0x1_0000_0000,
    ensures
        r is None <==> decimal_value(s@) is None,
        r matches Some(v) ==> (decimal_value(s@) matches Some(n) && (if n <= bound {
            v == n
        } else {
            v == bound + 1
        })),
{
    let chars = chars_of(s);
    let start: usize = if chars.len() > 0 && chars[0] == '+' {
        1
    } else {
        0
    };
    let ghost d = unsigned_part(s@);
    assert(d =~= chars@.skip(start as int));
    if start >= chars.len() {
        return None;
    }
    let mut v: u64 = 0;
    let mut i: usize = start;
    while i < chars.len()
        invariant
            start <= i <= chars@.len(),
            d == chars@.skip(start as int),
            chars@ == s@,
            d == unsigned_part(s@),
            bound < 0x1_0000_0000,
            forall|j: int| start <= j < i ==> is_digit(#[trigger] chars@[j]),
            v <= bound + 1,
            digits_value(chars@.subrange(start as int, i as int)) <= bound ==> v == digits_value(
                chars@.subrange(start as int, i as int),
            ),
            digits_value(chars@.subrange(start as int, i as int)) > bound ==> v == bound + 1,
        decreases chars@.len() - i,
    {
        let c = chars[i];
        if !('0' <= c && c <= '9') {
            assert(d[i - start] == c);
            assert(!is_digit(d[i - start]));
            assert(!all_digits(d));
            return None;
        }
        let digit = (c as u32 - '0' as u32) as u64;
        let ghost prev = chars@.subrange(start as int, i as int);
        let ghost next = chars@.subrange(start as int, i + 1int);
        assert(next.drop_last() =~= prev);
        assert(next.last() == c);
        assert(digits_value(next) == digits_value(prev) * 10 + digit);
        if v > bound {
            proof {
                assert(digits_value(prev) * 10 + digit > bound) by (nonlinear_arith)
                    requires
                        digits_value(prev) > bound,
                ;
            }
        } else {
            v = v * 10 + digit;
            if v > bound {
                v = bound + 1;
            }
        }
        i = i + 1;
    }
    assert(chars@.subrange(start as int, chars@.len() as int) =~= d);
    assert(all_digits(d)) by {
        assert forall|j: int| 0 <= j < d.len() implies is_digit(#[trigger] d[j]) by {
            assert(d[j] == chars@[start + j]);
        }
    }
    Some(v)
}

/// How much of a crate download to read, by its `Content-Length` header: all of
/// it where the length is within `MAX_CRATE_SIZE`, up to that limit where there is
/// no header. A header that is no number gives `400`, a larger length `507`.
pub fn crate_body_limit(content_length: Option<&str>) -> (r: Result<CrateBodyLimit, FetchError>)
    ensures
        content_length is None ==> r == Ok::<CrateBodyLimit, FetchError>(CrateBodyLimit::Capped),
        content_length matches Some(s) ==> match decimal_value(s@) {
            None => r matches Err(e) && e@ == invalid_header_error(),
            Some(n) => if n > MAX_CRATE_SIZE {
                r matches Err(e) && e@ == too_large_error()
            } else {
                r == Ok::<CrateBodyLimit, FetchError>(CrateBodyLimit::Exact(n as usize))
            },
        },
{
    match content_length {
        None => Ok(CrateBodyLimit::Capped),
        Some(s) => match decimal_capped(s, MAX_CRATE_SIZE as u64) {
            None => Err(
                FetchError::Upstream { status: 400, body: Ok("Invalid header".to_owned()) },
            ),
            Some(n) => {
                if n > MAX_CRATE_SIZE as u64 {
                    Err(
                        FetchError::Upstream {
                            status: 507,
                            body: Ok("Insufficient storage".to_owned()),
                        },
                    )
                } else {
                    Ok(CrateBodyLimit::Exact(n as usize))
                }
            },
        },
    }
}

/// Accepts a downloaded crate archive, unless it was read up to the limit without a
/// length announced: then it may have been cut short, and `507` is the answer.
pub fn check_crate_body(limit: CrateBodyLimit, data: Vec<u8>) -> (r: Result<Vec<u8>, FetchError>)
    ensures
        limit == CrateBodyLimit::Capped && data@.len() >= MAX_CRATE_SIZE ==> (r matches Err(e)
            && e@ == too_large_error()),
        !(limit == CrateBodyLimit::Capped && data@.len() >= MAX_CRATE_SIZE) ==> (r matches Ok(d)
            && d@ == data@),
{
    match limit {
        CrateBodyLimit::Capped => {
            if data.len() >= MAX_CRATE_SIZE {
                return Err(
                    FetchError::Upstream {
                        status: 507,
                        body: Ok("Insufficient storage".to_owned()),
                    },
                );
            }
            Ok(data)
        },
        CrateBodyLimit::Exact(_) => Ok(data),
    }
}

/// The upstream URL of a crate download: the download API path resolved against
/// the upstream server, then the crate's download path against that.
pub open spec fn crate_download_url_of(upstream_url: Seq<char>, c: crate::crate_info::CrateInfoView) -> Option<Seq<char>> {
    match url_join_text(upstream_url, crates_api_path()) {
        Some(api) => url_join_text(api, download_url_of(c)),
        None => None,
    }
}

/// The upstream URL of a crate download.
pub fn crate_download_url(upstream_url: &str, crate_info: &CrateInfo) -> (r: Option<String>)
    ensures
        r matches Some(u) ==> crate_download_url_of(upstream_url@, crate_info@) == Some(u@),
        r is None ==> crate_download_url_of(upstream_url@, crate_info@) is None,
{
    let api_path = string_of(&crates_api_path_chars());
    match join_url(upstream_url, api_path.as_str()) {
        Some(api) => join_url(api.as_str(), crate_info.to_download_url().as_str()),
        None => None,
    }
}

/// The upstream URL of an index entry: its sharded path resolved against the index root.
pub fn index_entry_url(index_url: &str, entry: &IndexEntry) -> (r: Option<String>)
    ensures
        r matches Some(u) ==> url_join_text(index_url@, index_path_of(entry@.name)) == Some(u@),
        r is None ==> url_join_text(index_url@, index_path_of(entry@.name)) is None,
{
    join_url(index_url, entry.to_index_url().as_str())
}

/// The one validator header sent upstream.
#[derive(Debug)]
pub enum ConditionalHeader {
    /// `If-None-Match` with an entity tag.
    IfNoneMatch(String),
    /// `If-Modified-Since` with an HTTP date.
    IfModifiedSince(String),
}

/// The validator header to send for `e`: its entity tag where it has one, else
/// its modification time, else none.
pub open spec fn conditional_of(e: IndexEntryView) -> Option<(bool, Seq<char>)> {
    match e.etag {
        Some(t) => Some((true, t)),
        None => match e.mtime {
            Some(m) => Some((false, http_date_text(m))),
            None => None,
        },
    }
}

/// The validator header of a conditional request for `entry`.
pub fn conditional_header(entry: &IndexEntry) -> (r: Option<ConditionalHeader>)
    ensures
        conditional_of(entry@) == (match r {
            Some(ConditionalHeader::IfNoneMatch(t)) => Some((true, t@)),
            Some(ConditionalHeader::IfModifiedSince(d)) => Some((false, d@)),
            None => None,
        }),
{
    match entry.etag() {
        Some(t) => Some(ConditionalHeader::IfNoneMatch(t.to_owned())),
        None => match entry.last_modified() {
            Some(d) => Some(ConditionalHeader::IfModifiedSince(d)),
            None => None,
        },
    }
}

/// The entry after an upstream answer: the `ETag` and `Last-Modified` it carried
/// replace those known (a date that does not parse changes nothing), and `now`
/// becomes the time of the last check.
pub open spec fn refreshed_entry(
    e: IndexEntryView,
    etag: Option<Seq<char>>,
    last_modified: Option<Seq<char>>,
    now: u64,
) -> IndexEntryView {
    let e1 = match etag {
        Some(t) => with_etag(e, t),
        None => e,
    };
    let e2 = match last_modified {
        Some(d) => match http_date_secs(d) {
            Some(m) => IndexEntryView { mtime: Some(m), ..e1 },
            None => e1,
        },
        None => e1,
    };
    with_atime(e2, now)
}

/// Takes the validators of an upstream answer into `entry` and stamps the check time.
pub fn apply_upstream_validators(
    entry: &mut IndexEntry,
    etag: Option<&str>,
    last_modified: Option<&str>,
    now: u64,
)
    ensures
        final(entry)@ == refreshed_entry(
            old(entry)@,
            match etag {
                Some(t) => Some(t@),
                None => None,
            },
            match last_modified {
                Some(d) => Some(d@),
                None => None,
            },
            now,
        ),
{
    if let Some(t) = etag {
        entry.set_etag(t);
    }
    if let Some(d) = last_modified {
        entry.set_last_modified(d);
    }
    entry.set_last_updated(now);
}

/// An index entry as upstream answered it.
#[derive(Debug)]
pub struct IndexResponse {
    /// The entry asked for, with the validators of the answer.
    pub entry: IndexEntry,
    /// The HTTP status of the answer.
    pub status: u16,
    /// The body of the answer.
    pub data: Vec<u8>,
}

} // verus!
