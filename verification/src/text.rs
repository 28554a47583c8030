//! Character-level text predicates used by the response and failure policies.
//!
//! Strings are handled as `Seq<char>` in specifications and as `Vec<char>` /
//! `&[char]` in executable code, so every predicate is stated and proved over
//! Unicode scalar values.

use vstd::prelude::*;

verus! {

/// `s` ends with `suffix`.
pub open spec fn seq_ends_with(s: Seq<char>, suffix: Seq<char>) -> bool {
    suffix.len() <= s.len() && s.subrange(s.len() - suffix.len(), s.len() as int) == suffix
}

/// `s` starts with `prefix`.
pub open spec fn seq_starts_with(s: Seq<char>, prefix: Seq<char>) -> bool {
    prefix.len() <= s.len() && s.subrange(0, prefix.len() as int) == prefix
}

/// `needle` occurs in `s` at position `i`.
pub open spec fn occurs_at(s: Seq<char>, needle: Seq<char>, i: int) -> bool {
    0 <= i && i + needle.len() <= s.len() && s.subrange(i, i + needle.len()) == needle
}

/// `needle` occurs somewhere in `s` (the empty needle occurs everywhere).
pub open spec fn seq_contains(s: Seq<char>, needle: Seq<char>) -> bool {
    exists|i: int| occurs_at(s, needle, i)
}

/// `c` occurs in `s`.
pub open spec fn has_char(s: Seq<char>, c: char) -> bool {
    exists|i: int| 0 <= i < s.len() && s[i] == c
}

/// Unicode `White_Space`: the characters `char::is_whitespace` accepts.
pub open spec fn is_ws(c: char) -> bool {
    let u = c as u32;
    (0x09 <= u <= 0x0d) || u == 0x20 || u == 0x85 || u == 0xa0 || u == 0x1680 || (0x2000 <= u
        <= 0x200a) || u == 0x2028 || u == 0x2029 || u == 0x202f || u == 0x205f || u == 0x3000
}

/// Unicode general category `Cc`: the characters `char::is_control` accepts.
pub open spec fn is_cc(c: char) -> bool {
    let u = c as u32;
    u <= 0x1f || (0x7f <= u <= 0x9f)
}

/// `s` without its trailing whitespace.
pub open spec fn trim_end_seq(s: Seq<char>) -> Seq<char>
    decreases s.len(),
{
    if s.len() > 0 && is_ws(s.last()) {
        trim_end_seq(s.drop_last())
    } else {
        s
    }
}

/// `s` without its leading whitespace.
pub open spec fn trim_start_seq(s: Seq<char>) -> Seq<char>
    decreases s.len(),
{
    if s.len() > 0 && is_ws(s[0]) {
        trim_start_seq(s.drop_first())
    } else {
        s
    }
}

/// `s` without leading and trailing whitespace.
pub open spec fn trim_seq(s: Seq<char>) -> Seq<char> {
    trim_start_seq(trim_end_seq(s))
}

/// Number of bytes the UTF-8 encoding of `c` takes.
pub open spec fn utf8_width(c: char) -> nat {
    let u = c as u32;
    if u < 0x80 {
        1
    } else if u < 0x800 {
        2
    } else if u < 0x10000 {
        3
    } else {
        4
    }
}

/// Number of bytes the UTF-8 encoding of `s` takes.
pub open spec fn utf8_len(s: Seq<char>) -> nat
    decreases s.len(),
{
    if s.len() == 0 {
        0
    } else {
        utf8_len(s.drop_last()) + utf8_width(s.last())
    }
}

/// The characters of a string slice, in order.
pub fn chars_of(s: &str) -> (r: Vec<char>)
    ensures
        r@ == s@,
{
    let mut out: Vec<char> = Vec::new();
    for c in it: s.chars()
        invariant
            out@ == it.seq().take(it.index() as int),
            it.seq() == s@,
    {
        out.push(c);
    }
    out
}

/// A `String` holding exactly `chars`.
pub fn string_of(chars: &[char]) -> (r: String)
    ensures
        r@ == chars@,
{
    let mut out = String::new();
    let mut i: usize = 0;
    while i < chars.len()
        invariant
            i <= chars.len(),
            out@ == chars@.take(i as int),
        decreases chars.len() - i,
    {
        let mut buf = [0u8; 4];
        let piece = char_str(chars[i], &mut buf);
        out.append(piece);
        assert(chars@.take(i + 1) == chars@.take(i as int).push(chars@[i as int]));
        i += 1;
    }
    assert(chars@.take(chars.len() as int) == chars@);
    out
}

/// The one-character string `c`, encoded into `buf`.
#[verifier::external_body]
fn char_str(c: char, buf: &mut [u8; 4]) -> (r: &str)
    ensures
        r@ == seq![c],
{
    c.encode_utf8(buf)
}

/// `char::is_whitespace`.
pub fn is_whitespace(c: char) -> (r: bool)
    ensures
        r == is_ws(c),
{
    let u = c as u32;
    (0x09 <= u && u <= 0x0d) || u == 0x20 || u == 0x85 || u == 0xa0 || u == 0x1680 || (0x2000
        <= u && u <= 0x200a) || u == 0x2028 || u == 0x2029 || u == 0x202f || u == 0x205f || u
        == 0x3000
}

/// `char::is_control`.
pub fn is_control(c: char) -> (r: bool)
    ensures
        r == is_cc(c),
{
    let u = c as u32;
    u <= 0x1f || (0x7f <= u && u <= 0x9f)
}

/// `char::len_utf8`.
pub fn char_utf8_width(c: char) -> (r: usize)
    ensures
        r == utf8_width(c),
        1 <= r <= 4,
{
    let u = c as u32;
    if u < 0x80 {
        1
    } else if u < 0x800 {
        2
    } else if u < 0x10000 {
        3
    } else {
        4
    }
}

proof fn lemma_trim_end_prefix(s: Seq<char>)
    ensures
        trim_end_seq(s) == s.take(trim_end_seq(s).len() as int),
        trim_end_seq(s).len() <= s.len(),
    decreases s.len(),
{
    if s.len() > 0 && is_ws(s.last()) {
        lemma_trim_end_prefix(s.drop_last());
        assert(s.drop_last().take(trim_end_seq(s).len() as int) == s.take(
            trim_end_seq(s).len() as int,
        ));
    } else {
        assert(s.take(s.len() as int) == s);
    }
}

/// Length of `s` once trailing whitespace is removed.
pub fn trim_end_len(s: &[char]) -> (r: usize)
    ensures
        r <= s@.len(),
        s@.take(r as int) == trim_end_seq(s@),
{
    let mut n = s.len();
    proof {
        assert(s@.take(n as int) == s@);
    }
    while n > 0 && is_whitespace(s[n - 1])
        invariant
            n <= s@.len(),
            trim_end_seq(s@.take(n as int)) == trim_end_seq(s@),
        decreases n,
    {
        proof {
            assert(s@.take(n as int).drop_last() == s@.take(n - 1));
        }
        n -= 1;
    }
    proof {
        assert(trim_end_seq(s@.take(n as int)) == s@.take(n as int));
    }
    n
}

/// Index of the first character that is not leading whitespace.
pub fn trim_start_index(s: &[char]) -> (r: usize)
    ensures
        r <= s@.len(),
        s@.skip(r as int) == trim_start_seq(s@),
{
    let mut n: usize = 0;
    proof {
        assert(s@.skip(0) == s@);
    }
    while n < s.len() && is_whitespace(s[n])
        invariant
            n <= s@.len(),
            trim_start_seq(s@.skip(n as int)) == trim_start_seq(s@),
        decreases s.len() - n,
    {
        proof {
            assert(s@.skip(n as int).drop_first() == s@.skip(n + 1));
        }
        n += 1;
    }
    n
}

/// `s` with leading and trailing whitespace removed.
pub fn trim_chars(s: &[char]) -> (r: Vec<char>)
    ensures
        r@ == trim_seq(s@),
{
    let end = trim_end_len(s);
    let mut head: Vec<char> = Vec::new();
    let mut i: usize = 0;
    while i < end
        invariant
            i <= end <= s@.len(),
            head@ == s@.take(i as int),
        decreases end - i,
    {
        head.push(s[i]);
        assert(s@.take(i + 1) == s@.take(i as int).push(s@[i as int]));
        i += 1;
    }
    let start = trim_start_index(head.as_slice());
    let mut out: Vec<char> = Vec::new();
    let mut j = start;
    while j < head.len()
        invariant
            start <= j <= head@.len(),
            out@ == head@.subrange(start as int, j as int),
        decreases head.len() - j,
    {
        out.push(head[j]);
        assert(head@.subrange(start as int, j + 1) == head@.subrange(start as int, j as int).push(
            head@[j as int],
        ));
        j += 1;
    }
    assert(out@ == head@.skip(start as int));
    out
}

/// `s` ends with `suffix`.
pub fn ends_with(s: &[char], suffix: &[char]) -> (r: bool)
    ensures
        r == seq_ends_with(s@, suffix@),
{
    if suffix.len() > s.len() {
        return false;
    }
    let off = s.len() - suffix.len();
    let mut i: usize = 0;
    while i < suffix.len()
        invariant
            off + suffix@.len() == s@.len(),
            s@.len() <= usize::MAX,
            i <= suffix@.len(),
            forall|k: int| 0 <= k < i ==> s@[off + k] == suffix@[k],
        decreases suffix.len() - i,
    {
        if s[off + i] != suffix[i] {
            assert(s@.subrange(off as int, s@.len() as int)[i as int] != suffix@[i as int]);
            return false;
        }
        i += 1;
    }
    assert(s@.subrange(off as int, s@.len() as int) =~= suffix@);
    true
}

/// `s` starts with `prefix`.
pub fn starts_with(s: &[char], prefix: &[char]) -> (r: bool)
    ensures
        r == seq_starts_with(s@, prefix@),
{
    if prefix.len() > s.len() {
        return false;
    }
    let mut i: usize = 0;
    while i < prefix.len()
        invariant
            prefix@.len() <= s@.len(),
            i <= prefix@.len(),
            forall|k: int| 0 <= k < i ==> s@[k] == prefix@[k],
        decreases prefix.len() - i,
    {
        if s[i] != prefix[i] {
            assert(s@.subrange(0, prefix@.len() as int)[i as int] != prefix@[i as int]);
            return false;
        }
        i += 1;
    }
    assert(s@.subrange(0, prefix@.len() as int) =~= prefix@);
    true
}

/// `needle` occurs in `s` at position `at`.
fn matches_at(s: &[char], needle: &[char], at: usize) -> (r: bool)
    requires
        at + needle@.len() <= s@.len(),
    ensures
        r == occurs_at(s@, needle@, at as int),
{
    let slen = s.len();
    let mut i: usize = 0;
    while i < needle.len()
        invariant
            at + needle@.len() <= s@.len(),
            s@.len() <= usize::MAX,
            i <= needle@.len(),
            forall|k: int| 0 <= k < i ==> s@[at + k] == needle@[k],
        decreases needle.len() - i,
    {
        if s[at + i] != needle[i] {
            assert(s@.subrange(at as int, at + needle@.len())[i as int] != needle@[i as int]);
            return false;
        }
        i += 1;
    }
    assert(s@.subrange(at as int, at + needle@.len()) =~= needle@);
    true
}

/// `needle` occurs somewhere in `s`.
pub fn contains(s: &[char], needle: &[char]) -> (r: bool)
    ensures
        r == seq_contains(s@, needle@),
{
    if needle.len() > s.len() {
        return false;
    }
    if needle.len() == 0 {
        assert(s@.subrange(0, 0) =~= needle@);
        assert(occurs_at(s@, needle@, 0));
        return true;
    }
    let last = s.len() - needle.len();
    let mut at: usize = 0;
    while at <= last
        invariant
            last + needle@.len() == s@.len(),
            needle@.len() > 0,
            s@.len() <= usize::MAX,
            at <= last + 1,
            forall|k: int| 0 <= k < at ==> !occurs_at(s@, needle@, k),
        decreases last + 1 - at,
    {
        if matches_at(s, needle, at) {
            return true;
        }
        at += 1;
    }
    false
}

/// `c` occurs in `s`.
pub fn contains_char(s: &[char], c: char) -> (r: bool)
    ensures
        r == has_char(s@, c),
{
    let mut i: usize = 0;
    while i < s.len()
        invariant
            i <= s@.len(),
            forall|k: int| 0 <= k < i ==> s@[k] != c,
        decreases s.len() - i,
    {
        if s[i] == c {
            return true;
        }
        i += 1;
    }
    false
}

/// `needle` occurs in the string `s`.
pub fn str_contains(s: &str, needle: &str) -> (r: bool)
    ensures
        r == seq_contains(s@, needle@),
{
    let sv = chars_of(s);
    let nv = chars_of(needle);
    contains(sv.as_slice(), nv.as_slice())
}

/// The string `s` ends with `suffix`.
pub fn str_ends_with(s: &str, suffix: &str) -> (r: bool)
    ensures
        r == seq_ends_with(s@, suffix@),
{
    let sv = chars_of(s);
    let nv = chars_of(suffix);
    ends_with(sv.as_slice(), nv.as_slice())
}

/// The string `s` starts with `prefix`.
pub fn str_starts_with(s: &str, prefix: &str) -> (r: bool)
    ensures
        r == seq_starts_with(s@, prefix@),
{
    let sv = chars_of(s);
    let nv = chars_of(prefix);
    starts_with(sv.as_slice(), nv.as_slice())
}

/// What `str::to_lowercase` makes of a text (Unicode lowercase mapping).
pub uninterp spec fn lowercase(s: Seq<char>) -> Seq<char>;

/// `str::to_lowercase`: the Unicode lowercase of `s`, a function of `s` alone.
#[verifier::external_body]
pub(crate) fn to_lowercase(s: &str) -> (r: String)
    ensures
        r@ == lowercase(s@),
{
    s.to_lowercase()
}

} // verus!
