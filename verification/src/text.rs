use vstd::prelude::*;
use vstd::string::StringSliceAdditionalSpecFns;
use vstd::std_specs::iter::IteratorSpec;

verus! {

broadcast use vstd::string::group_string_axioms;

/// The characters of `s`, in order.
pub fn chars_of(s: &str) -> (v: Vec<char>)
    ensures
        v@ == s@,
{
    let mut v: Vec<char> = Vec::new();
    for c in it: s.chars()
        invariant
            it.seq() == s@,
            v@ == it.seq().take(it.index() as int),
    {
        v.push(c);
        assert(v@ =~= it.seq().take(it.index() as int + 1));
    }
    assert(v@ =~= s@);
    v
}

/// Appends `c` to `s` (std's `String::push`).
#[verifier::external_body]
pub(crate) fn push_char(s: &mut String, c: char)
    ensures
        final(s)@ == old(s)@.push(c),
{
    s.push(c);
}

/// Whether two strings hold the same characters.
pub fn str_eq(a: &str, b: &str) -> (same: bool)
    ensures
        same == (a@ == b@),
{
    let a_owned = a.to_owned();
    let b_owned = b.to_owned();
    a_owned == b_owned
}

/// The characters that std's `char::is_whitespace` accepts: those with the
/// Unicode `White_Space` property.
pub open spec fn is_white(c: char) -> bool {
    ||| ('\u{9}' <= c && c <= '\u{d}')
    ||| c == ' '
    ||| c == '\u{85}'
    ||| c == '\u{a0}'
    ||| c == '\u{1680}'
    ||| ('\u{2000}' <= c && c <= '\u{200a}')
    ||| c == '\u{2028}'
    ||| c == '\u{2029}'
    ||| c == '\u{202f}'
    ||| c == '\u{205f}'
    ||| c == '\u{3000}'
}

pub fn is_white_char(c: char) -> (w: bool)
    ensures
        w == is_white(c),
{
    ('\u{9}' <= c && c <= '\u{d}') || c == ' ' || c == '\u{85}' || c == '\u{a0}' || c == '\u{1680}'
        || ('\u{2000}' <= c && c <= '\u{200a}') || c == '\u{2028}' || c == '\u{2029}' || c == '\u{202f}'
        || c == '\u{205f}' || c == '\u{3000}'
}

/// `s` without leading whitespace.
pub open spec fn trim_start(s: Seq<char>) -> Seq<char>
    decreases s.len(),
{
    if s.len() > 0 && is_white(s[0]) {
        trim_start(s.drop_first())
    } else {
        s
    }
}

/// `s` without trailing whitespace.
pub open spec fn trim_end(s: Seq<char>) -> Seq<char>
    decreases s.len(),
{
    if s.len() > 0 && is_white(s.last()) {
        trim_end(s.drop_last())
    } else {
        s
    }
}

/// `s` without leading and trailing whitespace (std's `str::trim`).
pub open spec fn trim(s: Seq<char>) -> Seq<char> {
    trim_end(trim_start(s))
}

/// Does `s` begin with `prefix`?
pub open spec fn starts_with(s: Seq<char>, prefix: Seq<char>) -> bool {
    prefix.len() <= s.len() && s.take(prefix.len() as int) == prefix
}

/// The pieces of `s` between occurrences of `sep` (std's `str::split` with a
/// character): always at least one piece.
pub open spec fn split_on(s: Seq<char>, sep: char) -> Seq<Seq<char>>
    decreases s.len(),
{
    if s.len() == 0 {
        seq![Seq::<char>::empty()]
    } else {
        let before = split_on(s.drop_last(), sep);
        if s.last() == sep {
            before.push(Seq::<char>::empty())
        } else {
            before.update(before.len() - 1, before.last().push(s.last()))
        }
    }
}

proof fn lemma_split_nonempty(s: Seq<char>, sep: char)
    ensures
        split_on(s, sep).len() >= 1,
    decreases s.len(),
{
    if s.len() > 0 {
        lemma_split_nonempty(s.drop_last(), sep);
    }
}

/// `line` without one trailing carriage return.
pub open spec fn strip_cr(line: Seq<char>) -> Seq<char> {
    if line.len() > 0 && line.last() == '\r' { line.drop_last() } else { line }
}

/// The lines of `s` as std's `str::lines` gives them: split at each `\n`,
/// a `\r` just before a `\n` dropped, and no empty line after a final `\n`.
pub open spec fn text_lines(s: Seq<char>) -> Seq<Seq<char>> {
    let parts = split_on(s, '\n');
    let ended = parts.take(parts.len() - 1).map_values(|l: Seq<char>| strip_cr(l));
    if parts.last().len() == 0 { ended } else { ended.push(parts.last()) }
}

/// The views of a list of character vectors.
pub open spec fn views(v: Seq<Vec<char>>) -> Seq<Seq<char>> {
    v.map_values(|x: Vec<char>| x@)
}

/// The pieces of `cs` between occurrences of `sep`.
pub fn split_chars(cs: &[char], sep: char) -> (parts: Vec<Vec<char>>)
    ensures
        views(parts@) == split_on(cs@, sep),
{
    let mut parts: Vec<Vec<char>> = Vec::new();
    let mut current: Vec<char> = Vec::new();
    let mut i: usize = 0;
    assert(cs@.take(0) =~= Seq::<char>::empty());
    while i < cs.len()
        invariant
            i <= cs.len(),
            views(parts@).push(current@) == split_on(cs@.take(i as int), sep),
        decreases cs.len() - i,
    {
        let c = cs[i];
        let ghost before = views(parts@).push(current@);
        assert(cs@.take(i as int + 1).drop_last() =~= cs@.take(i as int));
        if c == sep {
            parts.push(current);
            current = Vec::new();
            assert(views(parts@).push(current@) =~= before.push(Seq::<char>::empty()));
        } else {
            current.push(c);
            assert(views(parts@).push(current@) =~= before.update(before.len() - 1, before.last().push(c)));
        }
        i = i + 1;
    }
    assert(cs@.take(cs@.len() as int) =~= cs@);
    parts.push(current);
    parts
}

/// `line` without one trailing carriage return.
pub fn strip_cr_chars(line: Vec<char>) -> (out: Vec<char>)
    ensures
        out@ == strip_cr(line@),
{
    let mut line = line;
    if line.len() > 0 && line[line.len() - 1] == '\r' {
        line.pop();
    }
    line
}

/// The lines of `s`, as std's `str::lines` gives them.
pub fn lines_of(s: &str) -> (lines: Vec<Vec<char>>)
    ensures
        views(lines@) == text_lines(s@),
{
    let cs = chars_of(s);
    let mut parts = split_chars(cs.as_slice(), '\n');
    proof {
        lemma_split_nonempty(cs@, '\n');
    }
    let ghost all = views(parts@);
    let last = parts.pop().unwrap();
    let ghost ended = parts@;
    let mut lines: Vec<Vec<char>> = Vec::new();
    for line in it: parts.into_iter()
        invariant
            it.seq() == ended,
            all.len() == ended.len() + 1,
            forall|j: int| 0 <= j < ended.len() ==> ended[j]@ == all[j],
            views(lines@) == all.take(it.index() as int).map_values(|l: Seq<char>| strip_cr(l)),
    {
        let ghost i = it.index() as int;
        assert(line == ended[i]);
        assert(line@ == all[i]);
        let stripped = strip_cr_chars(line);
        let ghost before = lines@;
        lines.push(stripped);
        assert(views(lines@) =~= views(before).push(strip_cr(all[i])));
        assert(all.take(i + 1).map_values(|l: Seq<char>| strip_cr(l)) =~= all.take(i).map_values(|l: Seq<char>| strip_cr(l)).push(strip_cr(all[i])));
    }
    let ghost i = ended.len();
    assert(all.take(all.len() - 1) =~= all.take(i as int));
    if last.len() > 0 {
        lines.push(last);
        assert(views(lines@) =~= text_lines(s@));
    } else {
        assert(views(lines@) =~= text_lines(s@));
    }
    lines
}

/// The position of the first character of `cs` that is not whitespace.
fn first_non_white(cs: &[char]) -> (i: usize)
    ensures
        i <= cs@.len(),
        trim_start(cs@) == cs@.skip(i as int),
{
    let mut i: usize = 0;
    assert(cs@.skip(0) =~= cs@);
    while i < cs.len() && is_white_char(cs[i])
        invariant
            i <= cs@.len(),
            trim_start(cs@) == trim_start(cs@.skip(i as int)),
        decreases cs.len() - i,
    {
        assert(cs@.skip(i as int).drop_first() =~= cs@.skip(i as int + 1));
        i = i + 1;
    }
    i
}

/// `cs` without leading and trailing whitespace.
pub fn trim_chars(cs: &[char]) -> (out: Vec<char>)
    ensures
        out@ == trim(cs@),
{
    let start = first_non_white(cs);
    let mut end: usize = cs.len();
    assert(cs@.skip(start as int).take(end - start) =~= cs@.skip(start as int));
    while end > start && is_white_char(cs[end - 1])
        invariant
            start <= end <= cs@.len(),
            trim(cs@) == trim_end(cs@.subrange(start as int, end as int)),
        decreases end,
    {
        assert(cs@.subrange(start as int, end as int).drop_last() =~= cs@.subrange(start as int, end - 1));
        end = end - 1;
    }
    let mut out: Vec<char> = Vec::new();
    let mut k: usize = start;
    while k < end
        invariant
            start <= k <= end <= cs@.len(),
            out@ == cs@.subrange(start as int, k as int),
        decreases end - k,
    {
        out.push(cs[k]);
        assert(out@ =~= cs@.subrange(start as int, k + 1));
        k = k + 1;
    }
    out
}

/// Whether `s` holds nothing but whitespace.
pub fn is_blank(s: &str) -> (blank: bool)
    ensures
        blank == (trim(s@).len() == 0),
{
    let cs = chars_of(s);
    let t = trim_chars(cs.as_slice());
    t.len() == 0
}

/// Does `s` begin with `prefix`?
pub fn chars_start_with(s: &[char], prefix: &[char]) -> (b: bool)
    ensures
        b == starts_with(s@, prefix@),
{
    if prefix.len() > s.len() {
        return false;
    }
    let mut i: usize = 0;
    while i < prefix.len()
        invariant
            i <= prefix.len() <= s.len(),
            forall|j: int| 0 <= j < i ==> s@[j] == prefix@[j],
        decreases prefix.len() - i,
    {
        if s[i] != prefix[i] {
            assert(s@.take(prefix@.len() as int)[i as int] != prefix@[i as int]);
            return false;
        }
        i = i + 1;
    }
    assert(s@.take(prefix@.len() as int) =~= prefix@);
    true
}

/// Do `a` and `b` hold the same characters?
pub fn chars_eq(a: &[char], b: &[char]) -> (same: bool)
    ensures
        same == (a@ == b@),
{
    if a.len() != b.len() {
        return false;
    }
    let mut i: usize = 0;
    while i < a.len()
        invariant
            i <= a.len(),
            a.len() == b.len(),
            forall|j: int| 0 <= j < i ==> a@[j] == b@[j],
        decreases a.len() - i,
    {
        if a[i] != b[i] {
            return false;
        }
        i = i + 1;
    }
    assert(a@ =~= b@);
    true
}

/// The UTF-8 bytes of `s`.
pub fn bytes_of(s: &str) -> (b: Vec<u8>)
    ensures
        b@ == s.spec_bytes(),
{
    let src = s.as_bytes();
    let mut b: Vec<u8> = Vec::new();
    let mut i: usize = 0;
    while i < src.len()
        invariant
            i <= src@.len(),
            src@ == s.spec_bytes(),
            b@ == src@.take(i as int),
        decreases src.len() - i,
    {
        b.push(src[i]);
        assert(b@ =~= src@.take(i as int + 1));
        i = i + 1;
    }
    assert(src@.take(src@.len() as int) =~= src@);
    b
}

} // verus!
