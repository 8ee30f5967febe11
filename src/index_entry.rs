//! Identity and cache validators of a sparse index entry.

use vstd::prelude::*;

use crate::http_date::{
    format_http_date, http_date_secs, http_date_text, parse_http_date, HTTP_DATE_END,
};
use crate::text::{
    chars_of, contains_char, has_char, lemma_has_char_concat, lemma_segments_append_piece,
    lemma_segments_plain,
    push_all, push_range, segments, split_chars, string_of, views_of,
};

verus! {

/// What an index entry holds, as plain values.
pub ghost struct IndexEntryView {
    /// The crate name.
    pub name: Seq<char>,
    /// The entity tag, quotes kept.
    pub etag: Option<Seq<char>>,
    /// The modification instant, in whole seconds since the Unix epoch.
    pub mtime: Option<u64>,
    /// When upstream was last asked about the entry, in milliseconds of a monotonic clock.
    pub atime: Option<u64>,
}

/// `e` with the entity tag `t`.
pub open spec fn with_etag(e: IndexEntryView, t: Seq<char>) -> IndexEntryView {
    IndexEntryView { etag: Some(t), ..e }
}

/// `e` with the modification time `t`.
pub open spec fn with_mtime(e: IndexEntryView, t: u64) -> IndexEntryView {
    IndexEntryView { mtime: Some(t), ..e }
}

/// `e` with the last check upstream at `a`.
pub open spec fn with_atime(e: IndexEntryView, a: u64) -> IndexEntryView {
    IndexEntryView { atime: Some(a), ..e }
}

/// An entry that knows only its crate name.
pub open spec fn bare_entry(name: Seq<char>) -> IndexEntryView {
    IndexEntryView { name, etag: None, mtime: None, atime: None }
}

/// The sharded path of a crate's index entry.
pub open spec fn index_path_of(name: Seq<char>) -> Seq<char> {
    if name.len() == 0 {
        Seq::empty()
    } else if name.len() == 1 {
        seq!['1', '/'] + name
    } else if name.len() == 2 {
        seq!['2', '/'] + name
    } else if name.len() == 3 {
        seq!['3', '/'] + name.take(1) + seq!['/'] + name
    } else {
        name.take(2) + seq!['/'] + name.subrange(2, 4) + seq!['/'] + name
    }
}

/// The crate name that a sharded index path names: `"1/{n}"`, `"2/{n}"`, or any
/// three pieces of which the last is the name; nothing that holds a `.`.
pub open spec fn parse_index_url(url: Seq<char>) -> Option<Seq<char>> {
    let segs = segments(url, '/');
    if has_char(url, '.') {
        None
    } else if segs[0] == seq!['1'] || segs[0] == seq!['2'] {
        if segs.len() == 2 {
            Some(segs[1])
        } else {
            None
        }
    } else if segs.len() == 3 {
        Some(segs[2])
    } else {
        None
    }
}

/// Two entries carry the same contents by their validators: both have the same
/// entity tag, or the same modification time. A missing validator matches nothing.
pub open spec fn equivalent(a: IndexEntryView, b: IndexEntryView) -> bool {
    (a.etag is Some && a.etag == b.etag) || (a.mtime is Some && a.mtime == b.mtime)
}

/// More than `ttl` milliseconds have passed between the last check upstream and `now`.
pub open spec fn expired(e: IndexEntryView, ttl: u64, now: u64) -> bool {
    match e.atime {
        Some(a) => now as int - a as int > ttl as int,
        None => false,
    }
}

/// A sparse index entry: the crate name and what is known of its cached copy.
#[derive(Debug)]
pub struct IndexEntry {
    name: String,
    etag: Option<String>,
    mtime: Option<u64>,
    atime: Option<u64>,
}

impl View for IndexEntry {
    type V = IndexEntryView;

    closed spec fn view(&self) -> IndexEntryView {
        IndexEntryView {
            name: self.name@,
            etag: match self.etag {
                Some(t) => Some(t@),
                None => None,
            },
            mtime: self.mtime,
            atime: self.atime,
        }
    }
}

impl Clone for IndexEntry {
    fn clone(&self) -> (r: Self)
        ensures
            r@ == self@,
    {
        proof {
            use_type_invariant(self);
        }
        let etag = match &self.etag {
            Some(t) => Some(t.clone()),
            None => None,
        };
        IndexEntry { name: self.name.clone(), etag, mtime: self.mtime, atime: self.atime }
    }
}

fn same_etag(a: &Option<String>, b: &Option<String>) -> (r: bool)
    ensures
        r == (match (a, b) {
            (Some(x), Some(y)) => x@ == y@,
            (None, None) => true,
            _ => false,
        }),
{
    match (a, b) {
        (Some(x), Some(y)) => *x == *y,
        (None, None) => true,
        _ => false,
    }
}

impl PartialEq for IndexEntry {
    fn eq(&self, other: &IndexEntry) -> (r: bool) {
        self.name == other.name && same_etag(&self.etag, &other.etag) && self.mtime
            == other.mtime && self.atime == other.atime
    }
}

impl vstd::std_specs::cmp::PartialEqSpecImpl for IndexEntry {
    open spec fn obeys_eq_spec() -> bool {
        true
    }

    open spec fn eq_spec(&self, other: &IndexEntry) -> bool {
        self@ == other@
    }
}

impl Eq for IndexEntry {
}

impl IndexEntry {
    /// Modification times stay within what an HTTP date can name.
    #[verifier::type_invariant]
    closed spec fn inv(&self) -> bool {
        self.mtime matches Some(t) ==> t < HTTP_DATE_END
    }

    /// An entry for the crate `name` with no validators.
    pub fn new(name: &str) -> (r: IndexEntry)
        ensures
            r@ == bare_entry(name@),
    {
        IndexEntry { name: name.to_owned(), etag: None, mtime: None, atime: None }
    }

    /// An entry rebuilt from its cache file: the crate `name` whose cached copy was
    /// last modified at `mtime` (seconds since the Unix epoch). `None` where that
    /// instant is past what an HTTP date can name.
    pub fn with_file_mtime(name: &str, mtime: u64) -> (r: Option<IndexEntry>)
        ensures
            mtime < HTTP_DATE_END ==> (r matches Some(e) && e@ == with_mtime(
                bare_entry(name@),
                mtime,
            )),
            mtime >= HTTP_DATE_END ==> r is None,
    {
        if mtime < HTTP_DATE_END {
            Some(IndexEntry { name: name.to_owned(), etag: None, mtime: Some(mtime), atime: None })
        } else {
            None
        }
    }

    /// Reads the entry out of a sparse index path (the part after `/index/`).
    pub fn try_from_index_url(url: &str) -> (r: Option<IndexEntry>)
        ensures
            r matches Some(e) ==> parse_index_url(url@) == Some(e@.name) && e@ == bare_entry(
                e@.name,
            ),
            r is None <==> parse_index_url(url@) is None,
    {
        let chars = chars_of(url);
        if contains_char(&chars, '.') {
            return None;
        }
        let segs = split_chars(&chars, '/');
        proof {
            crate::text::lemma_segments_nonempty(chars@, '/');
        }
        assert(views_of(segs@)[0] == segs@[0]@);
        let first = &segs[0];
        let sharded_short = first.len() == 1 && (first[0] == '1' || first[0] == '2');
        assert(sharded_short == (segs@[0]@ == seq!['1'] || segs@[0]@ == seq!['2'])) by {
            if first@.len() == 1 {
                assert(first@ =~= seq![first@[0]]);
            }
        }
        let name_at: usize = if sharded_short {
            1
        } else {
            2
        };
        if segs.len() != name_at + 1 {
            return None;
        }
        assert(views_of(segs@)[name_at as int] == segs@[name_at as int]@);
        let name = string_of(&segs[name_at]);
        Some(IndexEntry { name, etag: None, mtime: None, atime: None })
    }

    /// The crate name.
    pub fn name(&self) -> (r: &str)
        ensures
            r@ == self@.name,
    {
        self.name.as_str()
    }

    /// Whether this is the entry of the crate `name`.
    pub fn has_name(&self, name: &String) -> (r: bool)
        ensures
            r == (self@.name == name@),
    {
        self.name == *name
    }

    /// Whether this entry and `other` carry the same contents by their validators.
    pub fn is_equivalent(&self, other: &IndexEntry) -> (r: bool)
        ensures
            r == equivalent(self@, other@),
    {
        let etags = match (&self.etag, &other.etag) {
            (Some(a), Some(b)) => *a == *b,
            _ => false,
        };
        let mtimes = match (self.mtime, other.mtime) {
            (Some(a), Some(b)) => a == b,
            _ => false,
        };
        etags || mtimes
    }

    /// Whether more than `ttl` milliseconds have passed since upstream was last asked
    /// about this entry, `now` being the present reading of the same monotonic clock.
    /// An entry that upstream was never asked about does not expire.
    pub fn is_expired_with_ttl(&self, ttl: u64, now: u64) -> (r: bool)
        ensures
            r == expired(self@, ttl, now),
    {
        match self.atime {
            Some(a) => now > a && now - a > ttl,
            None => false,
        }
    }

    /// The entity tag.
    pub fn etag(&self) -> (r: Option<&str>)
        ensures
            r matches Some(t) ==> self@.etag == Some(t@),
            r is None ==> self@.etag is None,
    {
        match &self.etag {
            Some(t) => Some(t.as_str()),
            None => None,
        }
    }

    /// The modification time, in whole seconds since the Unix epoch.
    pub fn mtime(&self) -> (r: Option<u64>)
        ensures
            r == self@.mtime,
    {
        self.mtime
    }

    /// The time of the last check upstream, in milliseconds of the monotonic clock.
    pub fn atime(&self) -> (r: Option<u64>)
        ensures
            r == self@.atime,
    {
        self.atime
    }

    /// The modification time as an HTTP date, for `Last-Modified`.
    pub fn last_modified(&self) -> (r: Option<String>)
        ensures
            r matches Some(s) ==> (self@.mtime matches Some(t) && s@ == http_date_text(t)),
            r is None ==> self@.mtime is None,
    {
        proof {
            use_type_invariant(self);
        }
        match self.mtime {
            Some(t) => Some(format_http_date(t)),
            None => None,
        }
    }

    /// Sets the entity tag.
    pub fn set_etag(&mut self, etag: &str)
        ensures
            final(self)@ == with_etag(old(self)@, etag@),
    {
        proof {
            use_type_invariant(&*self);
        }
        self.etag = Some(etag.to_owned());
    }

    /// Sets the modification time from an HTTP date; text that is no HTTP date
    /// leaves it as it was.
    pub fn set_last_modified(&mut self, last_modified: &str)
        ensures
            final(self)@ == (match http_date_secs(last_modified@) {
                Some(t) => with_mtime(old(self)@, t),
                None => old(self)@,
            }),
    {
        if let Some(t) = parse_http_date(last_modified) {
            self.mtime = Some(t);
        }
    }

    /// Records `now`, a reading of the monotonic clock in milliseconds, as the
    /// time of the last check upstream.
    pub fn set_last_updated(&mut self, now: u64)
        ensures
            final(self)@ == with_atime(old(self)@, now),
    {
        proof {
            use_type_invariant(&*self);
        }
        self.atime = Some(now);
    }

    /// The sharded index path of the entry, relative to the index root.
    pub fn to_index_url(&self) -> (r: String)
        ensures
            r@ == index_path_of(self@.name),
    {
        let chars = chars_of(self.name.as_str());
        let n = chars.len();
        let mut out = String::new();
        if n == 0 {
            assert(out@ =~= index_path_of(self@.name));
            return out;
        }
        if n == 1 {
            out.push('1');
            out.push('/');
        } else if n == 2 {
            out.push('2');
            out.push('/');
        } else if n == 3 {
            out.push('3');
            out.push('/');
            push_range(&mut out, &chars, 0, 1);
            out.push('/');
        } else {
            push_range(&mut out, &chars, 0, 2);
            out.push('/');
            push_range(&mut out, &chars, 2, 4);
            out.push('/');
        }
        push_all(&mut out, &chars);
        assert(out@ =~= index_path_of(self@.name));
        out
    }

    /// The cache file path of the entry, relative to the index cache directory:
    /// the same as its sharded index path.
    pub fn to_file_path(&self) -> (r: String)
        ensures
            r@ == index_path_of(self@.name),
    {
        self.to_index_url()
    }
}

/// Reading back the index path of a crate name that is not empty and holds no `/`
/// and no `.` gives the same name, so the entry read back is a new entry for it.
pub proof fn lemma_index_url_round_trip(name: Seq<char>)
    requires
        name.len() > 0,
        !has_char(name, '/'),
        !has_char(name, '.'),
    ensures
        parse_index_url(index_path_of(name)) == Some(name),
{
    let path = index_path_of(name);
    let slash = seq!['/'];
    lemma_has_char_concat(name.take(2), slash, '.');
    if name.len() <= 2 {
        let lead = if name.len() == 1 { seq!['1'] } else { seq!['2'] };
        assert(path =~= lead + slash + name);
        lemma_segments_plain(lead, '/');
        lemma_segments_append_piece(lead, name, '/');
        assert(segments(path, '/') =~= seq![lead, name]);
        lemma_has_char_concat(lead, slash, '.');
        lemma_has_char_concat(lead + slash, name, '.');
    } else {
        let (first, second) = if name.len() == 3 {
            (seq!['3'], name.take(1))
        } else {
            (name.take(2), name.subrange(2, 4))
        };
        assert(path =~= first + slash + second + slash + name);
        lemma_has_char_part(name, first, '/');
        lemma_has_char_part(name, second, '/');
        lemma_has_char_part(name, first, '.');
        lemma_has_char_part(name, second, '.');
        lemma_segments_plain(first, '/');
        lemma_segments_append_piece(first, second, '/');
        lemma_segments_append_piece(first + slash + second, name, '/');
        assert(segments(path, '/') =~= seq![first, second, name]);
        assert(first != seq!['1'] && first != seq!['2']) by {
            if name.len() == 3 {
                assert(first[0] == '3');
            } else {
                assert(first.len() == 2);
            }
        }
        lemma_has_char_concat(first, slash, '.');
        lemma_has_char_concat(first + slash, second, '.');
        lemma_has_char_concat(first + slash + second, slash, '.');
        lemma_has_char_concat(first + slash + second + slash, name, '.');
    }
}

/// An index path names no entry where it holds a `.`, where it has four or more
/// pieces, or where it has one or two pieces and the first is neither `1` nor `2`.
pub proof fn lemma_index_url_rejects(url: Seq<char>)
    ensures
        has_char(url, '.') ==> parse_index_url(url) is None,
        segments(url, '/').len() >= 4 ==> parse_index_url(url) is None,
        (segments(url, '/').len() <= 2 && segments(url, '/')[0] != seq!['1'] && segments(
            url,
            '/',
        )[0] != seq!['2']) ==> parse_index_url(url) is None,
{
    crate::text::lemma_segments_nonempty(url, '/');
}

/// Whether a piece of `name` taken whole from it can hold `c` only if `name` does.
proof fn lemma_has_char_part(name: Seq<char>, part: Seq<char>, c: char)
    requires
        !has_char(name, c),
        name.len() >= 3,
        part == name.take(1) || part == name.take(2) || (name.len() >= 4 && part == name.subrange(2, 4)) || part == seq!['3'],
        c == '/' || c == '.',
    ensures
        !has_char(part, c),
{
    if has_char(part, c) {
        let i = choose|i: int| 0 <= i < part.len() && part[i] == c;
        if part == seq!['3'] {
            assert(part[0] == '3');
        } else if part == name.take(1) || part == name.take(2) {
            assert(name[i] == c);
        } else {
            assert(name[i + 2] == c);
        }
    }
}

} // verus!
