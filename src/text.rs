//! Character-level string helpers shared by the parsers and formatters.

use vstd::prelude::*;
use vstd::std_specs::iter::IteratorSpec;

verus! {

broadcast use vstd::string::group_string_axioms;

/// `String::push` appends one character.
pub assume_specification[ String::push ](s: &mut String, ch: char)
    ensures
        final(s)@ == old(s)@.push(ch),
;

/// Whether `c` occurs anywhere in `s`.
pub open spec fn has_char(s: Seq<char>, c: char) -> bool {
    exists|i: int| 0 <= i < s.len() && s[i] == c
}

/// A concatenation holds `c` exactly where one of its parts does.
pub proof fn lemma_has_char_concat(a: Seq<char>, b: Seq<char>, c: char)
    ensures
        has_char(a + b, c) == (has_char(a, c) || has_char(b, c)),
{
    let ab = a + b;
    if has_char(a, c) {
        let i = choose|i: int| 0 <= i < a.len() && a[i] == c;
        assert(ab[i] == c);
    }
    if has_char(b, c) {
        let i = choose|i: int| 0 <= i < b.len() && b[i] == c;
        assert(ab[a.len() + i] == c);
    }
    if has_char(ab, c) {
        let i = choose|i: int| 0 <= i < ab.len() && ab[i] == c;
        if i < a.len() {
            assert(a[i] == c);
        } else {
            assert(b[i - a.len()] == c);
        }
    }
}

/// The pieces of `s` between occurrences of `sep`, as `str::split` yields them:
/// always at least one piece, and empty pieces are kept.
pub open spec fn segments(s: Seq<char>, sep: char) -> Seq<Seq<char>>
    decreases s.len(),
{
    if s.len() == 0 {
        seq![Seq::<char>::empty()]
    } else {
        let init = segments(s.drop_last(), sep);
        if s.last() == sep {
            init.push(Seq::<char>::empty())
        } else {
            init.update(init.len() - 1, init.last().push(s.last()))
        }
    }
}

pub proof fn lemma_segments_nonempty(s: Seq<char>, sep: char)
    ensures
        segments(s, sep).len() >= 1,
    decreases s.len(),
{
    if s.len() > 0 {
        lemma_segments_nonempty(s.drop_last(), sep);
    }
}

/// Appending a piece free of `sep` extends the last segment.
pub proof fn lemma_segments_append_plain(s: Seq<char>, t: Seq<char>, sep: char)
    requires
        !has_char(t, sep),
    ensures
        segments(s + t, sep) == segments(s, sep).update(
            segments(s, sep).len() - 1,
            segments(s, sep).last() + t,
        ),
    decreases t.len(),
{
    lemma_segments_nonempty(s, sep);
    if t.len() == 0 {
        assert(s + t =~= s);
        assert(segments(s, sep).last() + t =~= segments(s, sep).last());
        assert(segments(s, sep).update(segments(s, sep).len() - 1, segments(s, sep).last())
            =~= segments(s, sep));
    } else {
        let t0 = t.drop_last();
        assert(!has_char(t0, sep)) by {
            if has_char(t0, sep) {
                let i = choose|i: int| 0 <= i < t0.len() && t0[i] == sep;
                assert(t[i] == sep);
            }
        }
        lemma_segments_append_plain(s, t0, sep);
        assert((s + t).drop_last() =~= s + t0);
        assert((s + t).last() == t.last());
        assert(t.last() != sep) by {
            assert(t[t.len() - 1] == t.last());
        }
        lemma_segments_nonempty(s + t0, sep);
        assert(segments(s, sep).last() + t0 + seq![t.last()] =~= segments(s, sep).last() + t);
        assert((segments(s, sep).last() + t0).push(t.last()) =~= segments(s, sep).last() + t);
    }
}

/// A string free of `sep` is a single segment.
pub proof fn lemma_segments_plain(t: Seq<char>, sep: char)
    requires
        !has_char(t, sep),
    ensures
        segments(t, sep) == seq![t],
{
    let e = Seq::<char>::empty();
    lemma_segments_append_plain(e, t, sep);
    assert(e + t =~= t);
    assert(segments(e, sep) == seq![e]);
    assert(e + t =~= t);
    assert(seq![e].update(0, e + t) =~= seq![t]);
}

/// Appending the separator and then a piece free of it adds that piece as a new segment.
pub proof fn lemma_segments_append_piece(s: Seq<char>, t: Seq<char>, sep: char)
    requires
        !has_char(t, sep),
    ensures
        segments(s + seq![sep] + t, sep) == segments(s, sep).push(t),
{
    let s1 = s + seq![sep];
    assert(s1.drop_last() =~= s);
    assert(segments(s1, sep) == segments(s, sep).push(Seq::<char>::empty()));
    lemma_segments_append_plain(s1, t, sep);
    assert(Seq::<char>::empty() + t =~= t);
    assert(segments(s, sep).push(Seq::<char>::empty()).update(segments(s, sep).len() as int, t)
        =~= segments(s, sep).push(t));
}

/// The characters of `s`, in order.
pub fn chars_of(s: &str) -> (r: Vec<char>)
    ensures
        r@ == s@,
{
    let mut it = s.chars();
    let mut out: Vec<char> = Vec::new();
    loop
        invariant
            IteratorSpec::remaining(&it) == s@.skip(out@.len() as int),
            out@ == s@.take(out@.len() as int),
            out@.len() <= s@.len(),
        ensures
            out@ == s@,
        decreases s@.len() - out@.len(),
    {
        match it.next() {
            Some(c) => {
                assert(s@.take(out@.len() + 1int) =~= s@.take(out@.len() as int).push(c));
                assert(s@.skip(out@.len() + 1int) =~= s@.skip(out@.len() as int).drop_first());
                out.push(c);
            },
            None => {
                assert(s@.take(s@.len() as int) =~= s@);
                break;
            },
        }
    }
    out
}

/// The views of a sequence of character vectors.
pub open spec fn views_of(v: Seq<Vec<char>>) -> Seq<Seq<char>> {
    v.map_values(|x: Vec<char>| x@)
}

/// Whether `v` holds the character `c`.
pub fn contains_char(v: &Vec<char>, c: char) -> (r: bool)
    ensures
        r == has_char(v@, c),
{
    let mut i: usize = 0;
    while i < v.len()
        invariant
            i <= v@.len(),
            forall|j: int| 0 <= j < i ==> v@[j] != c,
        decreases v@.len() - i,
    {
        if v[i] == c {
            return true;
        }
        i = i + 1;
    }
    false
}

/// Whether `v` begins with `p`.
pub fn has_prefix(v: &Vec<char>, p: &Vec<char>) -> (r: bool)
    ensures
        r == (p@.len() <= v@.len() && v@.take(p@.len() as int) == p@),
{
    if p.len() > v.len() {
        return false;
    }
    let mut i: usize = 0;
    while i < p.len()
        invariant
            i <= p@.len() <= v@.len(),
            forall|j: int| 0 <= j < i ==> v@[j] == p@[j],
        decreases p@.len() - i,
    {
        if v[i] != p[i] {
            assert(v@.take(p@.len() as int)[i as int] != p@[i as int]);
            return false;
        }
        i = i + 1;
    }
    assert(v@.take(p@.len() as int) =~= p@);
    true
}

/// Whether `v` ends with `p`.
pub fn has_suffix(v: &Vec<char>, p: &Vec<char>) -> (r: bool)
    ensures
        r == (p@.len() <= v@.len() && v@.skip(v@.len() - p@.len()) == p@),
{
    if p.len() > v.len() {
        return false;
    }
    let off = v.len() - p.len();
    let mut i: usize = 0;
    while i < p.len()
        invariant
            off + p@.len() == v@.len(),
            off <= v@.len(),
            v@.len() == v.len(),
            i <= p@.len(),
            forall|j: int| 0 <= j < i ==> v@[off + j] == p@[j],
        decreases p@.len() - i,
    {
        let k: usize = off + i;
        if v[k] != p[i] {
            assert(v@.skip(off as int)[i as int] != p@[i as int]);
            return false;
        }
        i = i + 1;
    }
    assert(v@.skip(off as int) =~= p@);
    true
}

/// Appends `v[from..to]` to `out`.
pub fn push_range(out: &mut String, v: &Vec<char>, from: usize, to: usize)
    requires
        from <= to <= v@.len(),
    ensures
        final(out)@ == old(out)@ + v@.subrange(from as int, to as int),
{
    let mut i: usize = from;
    while i < to
        invariant
            from <= i <= to <= v@.len(),
            out@ == old(out)@ + v@.subrange(from as int, i as int),
        decreases to - i,
    {
        out.push(v[i]);
        assert(v@.subrange(from as int, i + 1int) =~= v@.subrange(from as int, i as int).push(v@[i as int]));
        i = i + 1;
    }
}

/// Appends all of `v` to `out`.
pub fn push_all(out: &mut String, v: &Vec<char>)
    ensures
        final(out)@ == old(out)@ + v@,
{
    push_range(out, v, 0, v.len());
    assert(v@.subrange(0, v@.len() as int) =~= v@);
}

/// A string made of the characters `v[from..]`.
pub fn string_from(v: &Vec<char>, from: usize) -> (r: String)
    requires
        from <= v@.len(),
    ensures
        r@ == v@.skip(from as int),
{
    let mut out = String::new();
    push_range(&mut out, v, from, v.len());
    assert(Seq::<char>::empty() + v@.subrange(from as int, v@.len() as int) =~= v@.skip(from as int));
    out
}

/// A string made of the characters of `v`.
pub fn string_of(v: &Vec<char>) -> (r: String)
    ensures
        r@ == v@,
{
    let mut out = String::new();
    push_all(&mut out, v);
    assert(Seq::<char>::empty() + v@ =~= v@);
    out
}

/// Splits `v` at each `sep`, keeping empty pieces.
pub fn split_chars(v: &Vec<char>, sep: char) -> (r: Vec<Vec<char>>)
    ensures
        views_of(r@) == segments(v@, sep),
{
    let mut done: Vec<Vec<char>> = Vec::new();
    let mut cur: Vec<char> = Vec::new();
    let mut i: usize = 0;
    assert(v@.take(0) =~= Seq::<char>::empty());
    assert(views_of(done@).push(cur@) =~= seq![Seq::<char>::empty()]);
    while i < v.len()
        invariant
            i <= v@.len(),
            views_of(done@).push(cur@) == segments(v@.take(i as int), sep),
        decreases v@.len() - i,
    {
        let c = v[i];
        let ghost pre = v@.take(i as int);
        assert(v@.take(i + 1int).drop_last() =~= pre);
        assert(v@.take(i + 1int).last() == c);
        if c == sep {
            done.push(cur);
            cur = Vec::new();
            assert(views_of(done@).push(cur@) =~= segments(pre, sep).push(Seq::<char>::empty()));
        } else {
            let ghost old_cur = cur@;
            cur.push(c);
            assert(views_of(done@).push(cur@) =~= segments(pre, sep).update(
                segments(pre, sep).len() - 1,
                segments(pre, sep).last().push(c),
            ));
        }
        i = i + 1;
    }
    assert(v@.take(v@.len() as int) =~= v@);
    done.push(cur);
    assert(views_of(done@) =~= segments(v@, sep));
    done
}

} // verus!
