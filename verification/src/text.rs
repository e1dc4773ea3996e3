//! Text as sequences of characters: the line, word and separator splitting
//! that the manifest and ledger grammars are built on, each stated as a fold
//! over `Seq<char>` and implemented on `String`.

use vstd::prelude::*;
use vstd::utf8::{decode_utf8, partial_valid_utf8, valid_utf8};

verus! {

/// The views of a sequence of strings.
pub open spec fn views(v: Seq<String>) -> Seq<Seq<char>> {
    Seq::new(v.len(), |i: int| v[i]@)
}

/// The five ASCII whitespace characters: space, tab, line feed, form feed and
/// carriage return.
pub open spec fn is_ascii_space(c: char) -> bool {
    c == ' ' || c == '\t' || c == '\n' || c == '\x0C' || c == '\r'
}

/// The characters with the Unicode property `White_Space`.
pub open spec fn is_space(c: char) -> bool {
    let u = c as u32;
    (0x09 <= u <= 0x0D) || u == 0x20 || u == 0x85 || u == 0xA0 || u == 0x1680 || (0x2000 <= u
        <= 0x200A) || u == 0x2028 || u == 0x2029 || u == 0x202F || u == 0x205F || u == 0x3000
}

/// `s` without its leading whitespace.
pub open spec fn trim_start(s: Seq<char>) -> Seq<char>
    decreases s.len(),
{
    if s.len() > 0 && is_space(s[0]) {
        trim_start(s.drop_first())
    } else {
        s
    }
}

/// `s` without one trailing carriage return, if it has one.
pub open spec fn strip_cr(s: Seq<char>) -> Seq<char> {
    if s.len() > 0 && s.last() == '\r' {
        s.drop_last()
    } else {
        s
    }
}

/// The text that is left when a run of characters ends: nothing if the run is
/// empty, else the run as one piece.
pub open spec fn flush(cur: Seq<char>) -> Seq<Seq<char>> {
    if cur.len() > 0 {
        seq![cur]
    } else {
        Seq::empty()
    }
}

/// The lines of `s`, where `cur` holds the characters of the line that is
/// being read. A line ends at a line feed; a carriage return just before the
/// line feed belongs to the line ending. The last line needs no line feed,
/// and an empty rest is no line.
pub open spec fn lines_from(s: Seq<char>, cur: Seq<char>) -> Seq<Seq<char>>
    decreases s.len(),
{
    if s.len() == 0 {
        flush(cur)
    } else if s[0] == '\n' {
        seq![strip_cr(cur)] + lines_from(s.drop_first(), Seq::empty())
    } else {
        lines_from(s.drop_first(), cur.push(s[0]))
    }
}

/// The lines of `s`.
pub open spec fn lines(s: Seq<char>) -> Seq<Seq<char>> {
    lines_from(s, Seq::empty())
}

/// The words of `s`, where `cur` holds the characters of the word that is
/// being read. Words are the maximal runs without ASCII whitespace.
pub open spec fn words_from(s: Seq<char>, cur: Seq<char>) -> Seq<Seq<char>>
    decreases s.len(),
{
    if s.len() == 0 {
        flush(cur)
    } else if is_ascii_space(s[0]) {
        flush(cur) + words_from(s.drop_first(), Seq::empty())
    } else {
        words_from(s.drop_first(), cur.push(s[0]))
    }
}

/// The words of `s`.
pub open spec fn words(s: Seq<char>) -> Seq<Seq<char>> {
    words_from(s, Seq::empty())
}

/// The pieces of `s` between occurrences of `sep`, where `cur` holds the
/// characters of the piece that is being read. There is always one piece more
/// than there are separators; pieces may be empty.
pub open spec fn split_from(s: Seq<char>, sep: char, cur: Seq<char>) -> Seq<Seq<char>>
    decreases s.len(),
{
    if s.len() == 0 {
        seq![cur]
    } else if s[0] == sep {
        seq![cur] + split_from(s.drop_first(), sep, Seq::empty())
    } else {
        split_from(s.drop_first(), sep, cur.push(s[0]))
    }
}

/// The pieces of `s` between occurrences of `sep`.
pub open spec fn split(s: Seq<char>, sep: char) -> Seq<Seq<char>> {
    split_from(s, sep, Seq::empty())
}

/// `String::push` appends one character.
pub assume_specification[ String::push ](s: &mut String, c: char)
    ensures
        final(s)@ == old(s)@.push(c),
;

/// Whether `c` is ASCII whitespace.
pub fn is_ascii_space_char(c: char) -> (r: bool)
    ensures
        r == is_ascii_space(c),
{
    c == ' ' || c == '\t' || c == '\n' || c == '\x0C' || c == '\r'
}

/// Whether `c` is whitespace.
pub fn is_space_char(c: char) -> (r: bool)
    ensures
        r == is_space(c),
{
    let u: u32 = c as u32;
    (0x09 <= u && u <= 0x0D) || u == 0x20 || u == 0x85 || u == 0xA0 || u == 0x1680 || (0x2000 <= u
        && u <= 0x200A) || u == 0x2028 || u == 0x2029 || u == 0x202F || u == 0x205F || u == 0x3000
}

/// The characters of `s`.
pub fn chars_of(s: &str) -> (v: Vec<char>)
    ensures
        v@ == s@,
{
    let mut v: Vec<char> = Vec::new();
    for c in it: s.chars()
        invariant
            v@ == it.seq().take(it.index() as int),
            it.seq() == s@,
    {
        v.push(c);
    }
    v
}

/// The string made of the characters `v[from..to]`.
pub fn string_of(v: &Vec<char>, from: usize, to: usize) -> (s: String)
    requires
        from <= to <= v.len(),
    ensures
        s@ == v@.subrange(from as int, to as int),
{
    let mut s = String::new();
    let mut i: usize = from;
    while i < to
        invariant
            from <= i <= to <= v.len(),
            s@ == v@.subrange(from as int, i as int),
        decreases to - i,
    {
        s.push(v[i]);
        i += 1;
    }
    s
}

/// Whether two strings hold the same characters.
pub fn str_eq(a: &str, b: &str) -> (r: bool)
    ensures
        r == (a@ == b@),
{
    let x = a.to_owned();
    let y = b.to_owned();
    x == y
}

/// Whether `s` begins with the character `c`.
pub fn starts_with_char(s: &str, c: char) -> (r: bool)
    ensures
        r == (s@.len() > 0 && s@[0] == c),
{
    let v = chars_of(s);
    v.len() > 0 && v[0] == c
}

/// The empty sequence added to a sequence changes nothing.
pub proof fn lemma_empty_plus(s: Seq<Seq<char>>)
    ensures
        Seq::<Seq<char>>::empty() + s == s,
        s + Seq::<Seq<char>>::empty() == s,
{
}

/// Leading whitespace can be taken off in two steps.
pub proof fn lemma_trim_start_skip(s: Seq<char>, i: int)
    requires
        0 <= i <= s.len(),
        forall|j: int| 0 <= j < i ==> is_space(#[trigger] s[j]),
    ensures
        trim_start(s) == trim_start(s.skip(i)),
    decreases i,
{
    if i > 0 {
        assert(s.drop_first().skip(i - 1) == s.skip(i));
        lemma_trim_start_skip(s.drop_first(), i - 1);
    } else {
        assert(s.skip(0) == s);
    }
}

/// `line` without its leading whitespace.
pub fn trim_line_start(line: &str) -> (r: String)
    ensures
        r@ == trim_start(line@),
{
    let v = chars_of(line);
    let mut i: usize = 0;
    while i < v.len() && is_space_char(v[i])
        invariant
            i <= v.len(),
            forall|j: int| 0 <= j < i ==> is_space(#[trigger] v@[j]),
        decreases v.len() - i,
    {
        i += 1;
    }
    proof {
        lemma_trim_start_skip(v@, i as int);
        assert(v@.skip(i as int) == v@.subrange(i as int, v.len() as int));
    }
    string_of(&v, i, v.len())
}

/// The lines of `text`, as `str::lines` yields them.
pub fn split_lines(text: &str) -> (r: Vec<String>)
    ensures
        views(r@) == lines(text@),
{
    let v = chars_of(text);
    let mut out: Vec<String> = Vec::new();
    let mut start: usize = 0;
    let mut i: usize = 0;
    proof {
        assert(v@.skip(0) == v@);
        assert(v@.subrange(0, 0) == Seq::<char>::empty());
        assert(views(out@) == Seq::<Seq<char>>::empty());
        lemma_empty_plus(lines(v@));
    }
    while i < v.len()
        invariant
            start <= i <= v.len(),
            lines(v@) == views(out@) + lines_from(
                v@.skip(i as int),
                v@.subrange(start as int, i as int),
            ),
        decreases v.len() - i,
    {
        let ghost rest = v@.skip(i as int);
        let ghost cur = v@.subrange(start as int, i as int);
        assert(rest.drop_first() == v@.skip(i + 1));
        assert(rest[0] == v@[i as int]);
        if v[i] == '\n' {
            let end: usize = if i > start && v[i - 1] == '\r' {
                i - 1
            } else {
                i
            };
            assert(v@.subrange(start as int, end as int) == strip_cr(cur));
            let line = string_of(&v, start, end);
            let ghost before = out@;
            out.push(line);
            assert(views(out@) == views(before) + seq![strip_cr(cur)]);
            start = i + 1;
            assert(v@.subrange(start as int, start as int) == Seq::<char>::empty());
        } else {
            assert(v@.subrange(start as int, i + 1) == cur.push(v@[i as int]));
        }
        i += 1;
    }
    assert(v@.skip(i as int).len() == 0);
    if start < v.len() {
        let line = string_of(&v, start, v.len());
        let ghost before = out@;
        out.push(line);
        assert(views(out@) == views(before) + seq![v@.subrange(start as int, i as int)]);
    } else {
        assert(views(out@) + Seq::<Seq<char>>::empty() == views(out@));
    }
    out
}

/// The words of `line`, as `str::split_ascii_whitespace` yields them.
pub fn split_words(line: &str) -> (r: Vec<String>)
    ensures
        views(r@) == words(line@),
{
    let v = chars_of(line);
    let mut out: Vec<String> = Vec::new();
    let mut start: usize = 0;
    let mut i: usize = 0;
    proof {
        assert(v@.skip(0) == v@);
        assert(v@.subrange(0, 0) == Seq::<char>::empty());
        assert(views(out@) == Seq::<Seq<char>>::empty());
        lemma_empty_plus(words(v@));
    }
    while i < v.len()
        invariant
            start <= i <= v.len(),
            words(v@) == views(out@) + words_from(
                v@.skip(i as int),
                v@.subrange(start as int, i as int),
            ),
        decreases v.len() - i,
    {
        let ghost rest = v@.skip(i as int);
        let ghost cur = v@.subrange(start as int, i as int);
        assert(rest.drop_first() == v@.skip(i + 1));
        assert(rest[0] == v@[i as int]);
        if is_ascii_space_char(v[i]) {
            if start < i {
                let word = string_of(&v, start, i);
                let ghost before = out@;
                out.push(word);
                assert(views(out@) == views(before) + seq![cur]);
            } else {
                assert(views(out@) + Seq::<Seq<char>>::empty() == views(out@));
            }
            start = i + 1;
            assert(v@.subrange(start as int, start as int) == Seq::<char>::empty());
        } else {
            assert(v@.subrange(start as int, i + 1) == cur.push(v@[i as int]));
        }
        i += 1;
    }
    assert(v@.skip(i as int).len() == 0);
    if start < v.len() {
        let word = string_of(&v, start, v.len());
        let ghost before = out@;
        out.push(word);
        assert(views(out@) == views(before) + seq![v@.subrange(start as int, i as int)]);
    } else {
        assert(views(out@) + Seq::<Seq<char>>::empty() == views(out@));
    }
    out
}

/// The pieces of `line` between occurrences of `sep`, as `str::split` yields
/// them for a character.
pub fn split_on(line: &str, sep: char) -> (r: Vec<String>)
    ensures
        views(r@) == split(line@, sep),
{
    let v = chars_of(line);
    let mut out: Vec<String> = Vec::new();
    let mut start: usize = 0;
    let mut i: usize = 0;
    proof {
        assert(v@.skip(0) == v@);
        assert(v@.subrange(0, 0) == Seq::<char>::empty());
        assert(views(out@) == Seq::<Seq<char>>::empty());
        lemma_empty_plus(split(v@, sep));
    }
    while i < v.len()
        invariant
            start <= i <= v.len(),
            split(v@, sep) == views(out@) + split_from(
                v@.skip(i as int),
                sep,
                v@.subrange(start as int, i as int),
            ),
        decreases v.len() - i,
    {
        let ghost rest = v@.skip(i as int);
        let ghost cur = v@.subrange(start as int, i as int);
        assert(rest.drop_first() == v@.skip(i + 1));
        assert(rest[0] == v@[i as int]);
        if v[i] == sep {
            let piece = string_of(&v, start, i);
            let ghost before = out@;
            out.push(piece);
            assert(views(out@) == views(before) + seq![cur]);
            start = i + 1;
            assert(v@.subrange(start as int, start as int) == Seq::<char>::empty());
        } else {
            assert(v@.subrange(start as int, i + 1) == cur.push(v@[i as int]));
        }
        i += 1;
    }
    assert(v@.skip(i as int).len() == 0);
    let piece = string_of(&v, start, v.len());
    let ghost before = out@;
    out.push(piece);
    assert(views(out@) == views(before) + seq![v@.subrange(start as int, i as int)]);
    out
}

/// Whether the first `k` bytes of `bytes` are its longest prefix that is
/// valid UTF-8.
pub open spec fn is_valid_up_to(bytes: Seq<u8>, k: int) -> bool {
    partial_valid_utf8(bytes, k) && forall|j: int|
        k < j <= bytes.len() ==> !#[trigger] partial_valid_utf8(bytes, j)
}

/// The length of the longest prefix of `bytes` that is valid UTF-8.
pub open spec fn valid_up_to(bytes: Seq<u8>) -> int {
    choose|k: int| is_valid_up_to(bytes, k)
}

/// The text that `bytes` encode in UTF-8, or, where they encode none, the
/// length of their longest prefix that does.
pub open spec fn text_of(bytes: Seq<u8>) -> Result<Seq<char>, int> {
    if valid_utf8(bytes) {
        Ok(decode_utf8(bytes))
    } else {
        Err(valid_up_to(bytes))
    }
}

/// Bytes that are not valid UTF-8: how many of them, from the first on, are.
#[derive(Debug, Clone, Copy, PartialEq, Eq, Structural)]
pub struct Utf8Failure {
    pub valid_up_to: usize,
}

/// `String::from_utf8`, with `Utf8Error::valid_up_to` of its error: the
/// string that the bytes encode when they are valid UTF-8, else the greatest
/// length of a prefix of them that is.
#[verifier::external_body]
fn string_from_utf8(bytes: Vec<u8>) -> (r: Result<String, usize>)
    ensures
        match r {
            Ok(s) => valid_utf8(bytes@) && s@ == decode_utf8(bytes@),
            Err(k) => !valid_utf8(bytes@) && is_valid_up_to(bytes@, k as int),
        },
{
    match String::from_utf8(bytes) {
        Ok(s) => Ok(s),
        Err(e) => Err(e.utf8_error().valid_up_to()),
    }
}

/// Whether `r` is the text or the failure `v`.
pub open spec fn same_text(r: Result<String, Utf8Failure>, v: Result<Seq<char>, int>) -> bool {
    match r {
        Ok(s) => v == Ok::<Seq<char>, int>(s@),
        Err(e) => v == Err::<Seq<char>, int>(e.valid_up_to as int),
    }
}

/// The text that `bytes` encode in UTF-8.
pub fn from_utf8(bytes: Vec<u8>) -> (r: Result<String, Utf8Failure>)
    ensures
        same_text(r, text_of(bytes@)),
{
    let ghost b = bytes@;
    match string_from_utf8(bytes) {
        Ok(s) => Ok(s),
        Err(k) => {
            proof {
                let other = valid_up_to(b);
                assert(is_valid_up_to(b, other));
                if other < k {
                    assert(partial_valid_utf8(b, k as int));
                }
                if k < other {
                    assert(partial_valid_utf8(b, other));
                }
            }
            Err(Utf8Failure { valid_up_to: k })
        },
    }
}

} // verus!
