//! Identity of a crate artifact and the paths derived from it.

use vstd::prelude::*;

use crate::text::{
    chars_of, has_char, has_suffix, lemma_segments_append_piece, lemma_segments_plain,
    push_all, segments, split_chars, string_of, views_of,
};

verus! {

/// What a crate artifact is identified by.
pub ghost struct CrateInfoView {
    pub name: Seq<char>,
    pub version: Seq<char>,
}

/// `"/download"`, the last part of a download API path.
pub open spec fn download_suffix() -> Seq<char> {
    seq!['/', 'd', 'o', 'w', 'n', 'l', 'o', 'a', 'd']
}

/// `"{name}/{version}/download"`.
pub open spec fn download_url_of(c: CrateInfoView) -> Seq<char> {
    c.name + seq!['/'] + c.version + download_suffix()
}

/// `"{name}-{version}.crate"`.
pub open spec fn file_name_of(c: CrateInfoView) -> Seq<char> {
    c.name + seq!['-'] + c.version + seq!['.', 'c', 'r', 'a', 't', 'e']
}

/// `"{name}/{name}-{version}.crate"`.
pub open spec fn file_path_of(c: CrateInfoView) -> Seq<char> {
    c.name + seq!['/'] + file_name_of(c)
}

/// `"{name} v{version}"`, how a crate is named in messages.
pub open spec fn display_of(c: CrateInfoView) -> Seq<char> {
    c.name + seq![' ', 'v'] + c.version
}

/// The crate named by a download path: exactly `"{name}/{version}/download"`,
/// where neither part holds a `/`.
pub open spec fn parse_download_url(url: Seq<char>) -> Option<CrateInfoView> {
    if url.len() >= download_suffix().len() && url.skip(url.len() - download_suffix().len())
        == download_suffix() {
        let segs = segments(url.take(url.len() - download_suffix().len()), '/');
        if segs.len() == 2 {
            Some(CrateInfoView { name: segs[0], version: segs[1] })
        } else {
            None
        }
    } else {
        None
    }
}

/// A crate artifact: its name and version, both taken verbatim.
#[derive(Debug)]
pub struct CrateInfo {
    name: String,
    version: String,
}

impl View for CrateInfo {
    type V = CrateInfoView;

    closed spec fn view(&self) -> CrateInfoView {
        CrateInfoView { name: self.name@, version: self.version@ }
    }
}

impl Clone for CrateInfo {
    fn clone(&self) -> (r: Self)
        ensures
            r@ == self@,
    {
        CrateInfo { name: self.name.clone(), version: self.version.clone() }
    }
}

impl PartialEq for CrateInfo {
    fn eq(&self, other: &CrateInfo) -> (r: bool) {
        self.name == other.name && self.version == other.version
    }
}

impl vstd::std_specs::cmp::PartialEqSpecImpl for CrateInfo {
    open spec fn obeys_eq_spec() -> bool {
        true
    }

    open spec fn eq_spec(&self, other: &CrateInfo) -> bool {
        self@ == other@
    }
}

impl Eq for CrateInfo {
}

fn download_suffix_chars() -> (r: Vec<char>)
    ensures
        r@ == download_suffix(),
{
    let r = vec!['/', 'd', 'o', 'w', 'n', 'l', 'o', 'a', 'd'];
    assert(r@ =~= download_suffix());
    r
}

impl CrateInfo {
    /// A crate with the given name and version.
    pub fn new(name: &str, version: &str) -> (r: CrateInfo)
        ensures
            r@.name == name@,
            r@.version == version@,
    {
        CrateInfo { name: name.to_owned(), version: version.to_owned() }
    }

    /// The crate name.
    pub fn name(&self) -> (r: &str)
        ensures
            r@ == self@.name,
    {
        self.name.as_str()
    }

    /// The crate version.
    pub fn version(&self) -> (r: &str)
        ensures
            r@ == self@.version,
    {
        self.version.as_str()
    }

    /// The crate as named in messages, `"{name} v{version}"`.
    pub fn display_name(&self) -> (r: String)
        ensures
            r@ == display_of(self@),
    {
        let mut out = self.name.clone();
        out.push(' ');
        out.push('v');
        push_all(&mut out, &chars_of(self.version.as_str()));
        assert(out@ =~= display_of(self@));
        out
    }

    /// Reads the crate out of a download API path, `"{name}/{version}/download"`.
    pub fn try_from_download_url(url: &str) -> (r: Option<CrateInfo>)
        ensures
            r matches Some(c) ==> parse_download_url(url@) == Some(c@),
            r is None ==> parse_download_url(url@) is None,
    {
        let chars = chars_of(url);
        let suffix = download_suffix_chars();
        if !has_suffix(&chars, &suffix) {
            return None;
        }
        let mut head: Vec<char> = Vec::new();
        let end = chars.len() - suffix.len();
        let mut i: usize = 0;
        while i < end
            invariant
                i <= end <= chars@.len(),
                head@ == chars@.take(i as int),
            decreases end - i,
        {
            head.push(chars[i]);
            assert(chars@.take(i + 1int) =~= chars@.take(i as int).push(chars@[i as int]));
            i = i + 1;
        }
        let segs = split_chars(&head, '/');
        if segs.len() != 2 {
            return None;
        }
        assert(views_of(segs@)[0] == segs@[0]@);
        assert(views_of(segs@)[1] == segs@[1]@);
        Some(CrateInfo { name: string_of(&segs[0]), version: string_of(&segs[1]) })
    }

    /// The download API path of the crate, `"{name}/{version}/download"`.
    pub fn to_download_url(&self) -> (r: String)
        ensures
            r@ == download_url_of(self@),
    {
        let mut out = self.name.clone();
        out.push('/');
        let v = chars_of(self.version.as_str());
        push_all(&mut out, &v);
        push_all(&mut out, &download_suffix_chars());
        out
    }

    /// The cache file name of the crate, `"{name}-{version}.crate"`.
    pub fn to_file_name(&self) -> (r: String)
        ensures
            r@ == file_name_of(self@),
    {
        let mut out = self.name.clone();
        out.push('-');
        let v = chars_of(self.version.as_str());
        push_all(&mut out, &v);
        let ext = vec!['.', 'c', 'r', 'a', 't', 'e'];
        push_all(&mut out, &ext);
        assert(out@ =~= file_name_of(self@));
        out
    }

    /// The cache file path of the crate relative to the crates directory,
    /// `"{name}/{name}-{version}.crate"`.
    pub fn to_file_path(&self) -> (r: String)
        ensures
            r@ == file_path_of(self@),
    {
        let mut out = self.name.clone();
        out.push('/');
        let f = chars_of(self.to_file_name().as_str());
        push_all(&mut out, &f);
        assert(out@ =~= file_path_of(self@));
        out
    }
}

/// Reading back the download path of a crate whose name and version hold no `/`
/// gives the same crate.
pub proof fn lemma_download_url_round_trip(c: CrateInfoView)
    requires
        !has_char(c.name, '/'),
        !has_char(c.version, '/'),
    ensures
        parse_download_url(download_url_of(c)) == Some(c),
{
    let url = download_url_of(c);
    let head = c.name + seq!['/'] + c.version;
    assert(url =~= head + download_suffix());
    assert(url.skip(url.len() - download_suffix().len()) =~= download_suffix());
    assert(url.take(url.len() - download_suffix().len()) =~= head);
    lemma_segments_plain(c.name, '/');
    lemma_segments_append_piece(c.name, c.version, '/');
    assert(segments(head, '/') =~= seq![c.name, c.version]);
}

} // verus!
