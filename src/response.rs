//! The responses the proxy sends, as plain values: status, content type,
//! cache validators and body.

use vstd::prelude::*;

use crate::index_entry::{IndexEntry, IndexEntryView};
use crate::http_date::http_date_text;
use crate::text::{chars_of, push_all};

verus! {

/// The content types the proxy answers with.
#[derive(Clone, Copy, Debug, PartialEq, Eq, Structural)]
pub enum ContentType {
    /// JSON documents: `config.json` and error envelopes.
    Json,
    /// Crate archives.
    CrateFile,
    /// Sparse index entries.
    IndexText,
}

/// The `Content-Type` header value of each content type.
pub open spec fn content_type_text(t: ContentType) -> Seq<char> {
    match t {
        ContentType::Json => "application/json; charset=utf-8"@,
        ContentType::CrateFile => "application/x-tar"@,
        ContentType::IndexText => "text/plain"@,
    }
}

impl ContentType {
    /// The `Content-Type` header value.
    pub fn header_value(&self) -> (r: &'static str)
        ensures
            r@ == content_type_text(*self),
    {
        match self {
            ContentType::Json => "application/json; charset=utf-8",
            ContentType::CrateFile => "application/x-tar",
            ContentType::IndexText => "text/plain",
        }
    }
}

/// A response body.
#[derive(Debug)]
pub enum ResponseBody {
    Empty,
    Text(String),
    Bytes(Vec<u8>),
}

/// A response body as plain values.
pub ghost enum BodyView {
    Empty,
    Text(Seq<char>),
    Bytes(Seq<u8>),
}

impl View for ResponseBody {
    type V = BodyView;

    open spec fn view(&self) -> BodyView {
        match self {
            ResponseBody::Empty => BodyView::Empty,
            ResponseBody::Text(s) => BodyView::Text(s@),
            ResponseBody::Bytes(b) => BodyView::Bytes(b@),
        }
    }
}

/// A response to send back to the client.
#[derive(Debug)]
pub struct ProxyResponse {
    pub status: u16,
    pub content_type: Option<ContentType>,
    /// The `ETag` header, if any.
    pub etag: Option<String>,
    /// The `Last-Modified` header, if any.
    pub last_modified: Option<String>,
    pub body: ResponseBody,
}

/// A response as plain values.
pub ghost struct ResponseView {
    pub status: u16,
    pub content_type: Option<ContentType>,
    pub etag: Option<Seq<char>>,
    pub last_modified: Option<Seq<char>>,
    pub body: BodyView,
}

/// The view of an optional string.
pub open spec fn opt_text(o: Option<String>) -> Option<Seq<char>> {
    match o {
        Some(s) => Some(s@),
        None => None,
    }
}

impl View for ProxyResponse {
    type V = ResponseView;

    open spec fn view(&self) -> ResponseView {
        ResponseView {
            status: self.status,
            content_type: self.content_type,
            etag: opt_text(self.etag),
            last_modified: opt_text(self.last_modified),
            body: self.body@,
        }
    }
}

/// The `Last-Modified` text of an entry's modification time.
pub open spec fn last_modified_of(e: IndexEntryView) -> Option<Seq<char>> {
    match e.mtime {
        Some(t) => Some(http_date_text(t)),
        None => None,
    }
}

/// A response with the given status, no content type, no validators and no body.
pub open spec fn bare_view(status: u16) -> ResponseView {
    ResponseView {
        status,
        content_type: None,
        etag: None,
        last_modified: None,
        body: BodyView::Empty,
    }
}

/// A response carrying the validators of `e` and the given status, type and body.
pub open spec fn index_view(
    e: IndexEntryView,
    status: u16,
    content_type: Option<ContentType>,
    body: BodyView,
) -> ResponseView {
    ResponseView { status, content_type, etag: e.etag, last_modified: last_modified_of(e), body }
}

/// A JSON response.
pub open spec fn json_view(status: u16, json: Seq<char>) -> ResponseView {
    ResponseView {
        status,
        content_type: Some(ContentType::Json),
        etag: None,
        last_modified: None,
        body: BodyView::Text(json),
    }
}

/// The JSON escape of one character inside a string literal.
pub open spec fn escape_char(c: char) -> Seq<char> {
    if c == '"' {
        seq!['\\', '"']
    } else if c == '\\' {
        seq!['\\', '\\']
    } else if c == '\n' {
        seq!['\\', 'n']
    } else if c == '\r' {
        seq!['\\', 'r']
    } else if c == '\t' {
        seq!['\\', 't']
    } else if (c as u32) < 0x20 {
        seq!['\\', 'u', '0', '0', hex_digits()[((c as u32) / 16) as int], hex_digits()[((c as u32) % 16) as int]]
    } else {
        seq![c]
    }
}

/// The hexadecimal digits, lower case.
pub open spec fn hex_digits() -> Seq<char> {
    seq!['0', '1', '2', '3', '4', '5', '6', '7', '8', '9', 'a', 'b', 'c', 'd', 'e', 'f']
}

/// `s` escaped for a JSON string literal.
pub open spec fn json_escaped(s: Seq<char>) -> Seq<char>
    decreases s.len(),
{
    if s.len() == 0 {
        Seq::empty()
    } else {
        json_escaped(s.drop_last()) + escape_char(s.last())
    }
}

/// `{"errors":[{"detail":"<detail>"}]}`, the detail escaped.
pub open spec fn json_error_of(detail: Seq<char>) -> Seq<char> {
    seq!['{', '"', 'e', 'r', 'r', 'o', 'r', 's', '"', ':', '[', '{', '"', 'd', 'e', 't', 'a', 'i', 'l', '"', ':', '"']
        + json_escaped(detail) + seq!['"', '}', ']', '}']
}

fn push_escaped(out: &mut String, c: char)
    ensures
        final(out)@ == old(out)@ + escape_char(c),
{
    if c == '"' {
        out.push('\\');
        out.push('"');
    } else if c == '\\' {
        out.push('\\');
        out.push('\\');
    } else if c == '\n' {
        out.push('\\');
        out.push('n');
    } else if c == '\r' {
        out.push('\\');
        out.push('r');
    } else if c == '\t' {
        out.push('\\');
        out.push('t');
    } else if (c as u32) < 0x20 {
        let hex = vec!['0', '1', '2', '3', '4', '5', '6', '7', '8', '9', 'a', 'b', 'c', 'd', 'e', 'f'];
        assert(hex@ =~= hex_digits());
        let code = c as u32;
        out.push('\\');
        out.push('u');
        out.push('0');
        out.push('0');
        out.push(hex[(code / 16) as usize]);
        out.push(hex[(code % 16) as usize]);
    } else {
        out.push(c);
    }
    assert(final(out)@ =~= old(out)@ + escape_char(c));
}

/// Formats the JSON error envelope of the download API around `detail`.
pub fn format_json_error(detail: &str) -> (r: String)
    ensures
        r@ == json_error_of(detail@),
{
    let chars = chars_of(detail);
    let mut out = String::new();
    let head = vec!['{', '"', 'e', 'r', 'r', 'o', 'r', 's', '"', ':', '[', '{', '"', 'd', 'e', 't', 'a', 'i', 'l', '"', ':', '"'];
    push_all(&mut out, &head);
    let ghost start = out@;
    let mut i: usize = 0;
    while i < chars.len()
        invariant
            i <= chars@.len(),
            out@ == start + json_escaped(chars@.take(i as int)),
        decreases chars@.len() - i,
    {
        assert(chars@.take(i + 1int).drop_last() =~= chars@.take(i as int));
        push_escaped(&mut out, chars[i]);
        assert(out@ =~= start + json_escaped(chars@.take(i + 1int)));
        i = i + 1;
    }
    assert(chars@.take(chars@.len() as int) =~= chars@);
    let tail = vec!['"', '}', ']', '}'];
    push_all(&mut out, &tail);
    assert(out@ =~= json_error_of(detail@));
    out
}

/// A response with the given status and nothing else: the answer to a request that
/// is refused, and to one whose cached copy was lost.
pub fn error_response(status: u16) -> (r: ProxyResponse)
    ensures
        r@ == bare_view(status),
{
    ProxyResponse {
        status,
        content_type: None,
        etag: None,
        last_modified: None,
        body: ResponseBody::Empty,
    }
}

/// A JSON response with the given status.
pub fn json_response(status: u16, json: String) -> (r: ProxyResponse)
    ensures
        r@ == json_view(status, json@),
{
    ProxyResponse {
        status,
        content_type: Some(ContentType::Json),
        etag: None,
        last_modified: None,
        body: ResponseBody::Text(json),
    }
}

/// A crate archive download.
pub fn crate_data_response(data: Vec<u8>) -> (r: ProxyResponse)
    ensures
        r@ == (ResponseView {
            status: 200,
            content_type: Some(ContentType::CrateFile),
            etag: None,
            last_modified: None,
            body: BodyView::Bytes(data@),
        }),
{
    ProxyResponse {
        status: 200,
        content_type: Some(ContentType::CrateFile),
        etag: None,
        last_modified: None,
        body: ResponseBody::Bytes(data),
    }
}

/// An index entry body with the given status and the validators of `entry`.
pub fn index_data_response(entry: &IndexEntry, status: u16, data: Vec<u8>) -> (r: ProxyResponse)
    ensures
        r@ == index_view(entry@, status, Some(ContentType::IndexText), BodyView::Bytes(data@)),
{
    let etag = match entry.etag() {
        Some(t) => Some(t.to_owned()),
        None => None,
    };
    ProxyResponse {
        status,
        content_type: Some(ContentType::IndexText),
        etag,
        last_modified: entry.last_modified(),
        body: ResponseBody::Bytes(data),
    }
}

/// A cached index entry body: always `200 OK`, with the validators of `entry`.
pub fn index_file_response(entry: &IndexEntry, data: Vec<u8>) -> (r: ProxyResponse)
    ensures
        r@ == index_view(entry@, 200, Some(ContentType::IndexText), BodyView::Bytes(data@)),
{
    index_data_response(entry, 200, data)
}

/// `304 Not Modified` with the validators of `entry` and no body.
pub fn not_modified_response(entry: &IndexEntry) -> (r: ProxyResponse)
    ensures
        r@ == index_view(entry@, 304, None, BodyView::Empty),
{
    let etag = match entry.etag() {
        Some(t) => Some(t.to_owned()),
        None => None,
    };
    ProxyResponse {
        status: 304,
        content_type: None,
        etag,
        last_modified: entry.last_modified(),
        body: ResponseBody::Empty,
    }
}

} // verus!
