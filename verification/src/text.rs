//! Text as sequences of characters: the small vocabulary that the parsers and
//! the message builders of this crate share.
//!
//! Contracts speak of `Seq<char>`, the view of `str` and `String`. Executable
//! code works on `Vec<char>`, which can be indexed in constant time.

use vstd::prelude::*;
use vstd::std_specs::iter::IteratorSpec;
use vstd::string::StringSliceAdditionalSpecFns;
use vstd::utf8::encode_utf8_decode_utf8;

verus! {

/// `String::push` appends one character to the end of the string.
pub assume_specification[ String::push ](s: &mut String, c: char)
    ensures
        final(s)@ == old(s)@.push(c),
;

/// The lower-case form that `str::to_lowercase` gives for a text: that of
/// Unicode, in which a character may turn into more than one.
pub uninterp spec fn lowercase(s: Seq<char>) -> Seq<char>;

/// `str::to_lowercase`: the lower-case form of the text by the rules of
/// Unicode. The contract only names the result.
pub assume_specification[ str::to_lowercase ](s: &str) -> (r: String)
    ensures
        r@ == lowercase(s@),
;

/// The characters of `s`, in order.
pub fn chars_of(s: &str) -> (v: Vec<char>)
    ensures
        v@ == s@,
{
    let mut v: Vec<char> = Vec::new();
    let it = s.chars();
    for c in iter: it
        invariant
            v@ == s@.take(iter.index()),
            iter.seq() == s@,
    {
        v.push(c);
    }
    v
}

/// Whether two strings hold the same characters.
pub fn same_text(a: &str, b: &str) -> (r: bool)
    ensures
        r == (a@ == b@),
{
    let x = a.as_bytes();
    let y = b.as_bytes();
    proof {
        encode_utf8_decode_utf8(a@);
        encode_utf8_decode_utf8(b@);
    }
    if x.len() != y.len() {
        return false;
    }
    let mut i: usize = 0;
    while i < x.len()
        invariant
            i <= x.len(),
            x.len() == y.len(),
            x@ == a.spec_bytes(),
            y@ == b.spec_bytes(),
            x@.take(i as int) == y@.take(i as int),
        decreases x.len() - i,
    {
        if x[i] != y[i] {
            return false;
        }
        assert(x@.take(i + 1) == x@.take(i as int).push(x@[i as int]));
        assert(y@.take(i + 1) == y@.take(i as int).push(y@[i as int]));
        i += 1;
    }
    assert(x@ == x@.take(x.len() as int));
    assert(y@ == y@.take(y.len() as int));
    true
}

/// The lower-case form of an ASCII capital letter; every other character is
/// left as it is.
pub open spec fn lower_char(c: char) -> char {
    if 'A' <= c && c <= 'Z' {
        ((c as u32) + 32) as char
    } else {
        c
    }
}

/// `s` with each ASCII capital letter replaced by its lower-case form.
pub open spec fn ascii_lower(s: Seq<char>) -> Seq<char> {
    Seq::new(s.len(), |i: int| lower_char(s[i]))
}

/// The lower-case form of `c`.
pub fn to_lower(c: char) -> (r: char)
    ensures
        r == lower_char(c),
{
    if 'A' <= c && c <= 'Z' {
        let b: u8 = (c as u8) + 32;
        b as char
    } else {
        c
    }
}

/// The lower-case form of `v`.
pub fn lowered(v: &Vec<char>) -> (r: Vec<char>)
    ensures
        r@ == ascii_lower(v@),
{
    let mut r: Vec<char> = Vec::new();
    let mut i: usize = 0;
    while i < v.len()
        invariant
            i <= v.len(),
            r@ == ascii_lower(v@).take(i as int),
        decreases v.len() - i,
    {
        r.push(to_lower(v[i]));
        i += 1;
    }
    r
}

/// The lower-case form of `v[lo..hi]`.
pub fn lowered_range(v: &Vec<char>, lo: usize, hi: usize) -> (r: Vec<char>)
    requires
        lo <= hi <= v.len(),
    ensures
        r@ == ascii_lower(v@.subrange(lo as int, hi as int)),
{
    let mut r: Vec<char> = Vec::new();
    let mut i: usize = lo;
    while i < hi
        invariant
            lo <= i <= hi <= v.len(),
            r@ == ascii_lower(v@.subrange(lo as int, hi as int)).take(i - lo),
        decreases hi - i,
    {
        r.push(to_lower(v[i]));
        i += 1;
    }
    r
}

/// Whether two vectors hold the same characters.
pub fn same_chars(x: &Vec<char>, y: &Vec<char>) -> (r: bool)
    ensures
        r == (x@ == y@),
{
    if x.len() != y.len() {
        return false;
    }
    let mut i: usize = 0;
    while i < x.len()
        invariant
            i <= x.len(),
            x.len() == y.len(),
            x@.take(i as int) == y@.take(i as int),
        decreases x.len() - i,
    {
        if x[i] != y[i] {
            return false;
        }
        assert(x@.take(i + 1) == x@.take(i as int).push(x@[i as int]));
        assert(y@.take(i + 1) == y@.take(i as int).push(y@[i as int]));
        i += 1;
    }
    assert(x@ == x@.take(x.len() as int));
    assert(y@ == y@.take(y.len() as int));
    true
}

/// Whether `s` ends with `suffix`.
pub open spec fn ends_with(s: Seq<char>, suffix: Seq<char>) -> bool {
    suffix.len() <= s.len() && s.subrange(s.len() - suffix.len(), s.len() as int) == suffix
}

/// Whether the first `end` characters of `v` end with `suffix`.
pub fn prefix_ends_with(v: &Vec<char>, end: usize, suffix: &str) -> (r: bool)
    requires
        end <= v.len(),
    ensures
        r == ends_with(v@.take(end as int), suffix@),
{
    let suf = chars_of(suffix);
    if suf.len() > end {
        return false;
    }
    let start: usize = end - suf.len();
    let ghost head = v@.take(end as int);
    let mut i: usize = 0;
    while i < suf.len()
        invariant
            i <= suf.len(),
            start + suf.len() == end,
            end <= v.len(),
            head == v@.take(end as int),
            suf@ == suffix@,
            head.subrange(start as int, start + i) == suf@.take(i as int),
        decreases suf.len() - i,
    {
        if v[start + i] != suf[i] {
            assert(head.subrange(start as int, end as int)[i as int] != suf@[i as int]);
            return false;
        }
        assert(head.subrange(start as int, start + i + 1) == head.subrange(
            start as int,
            start + i,
        ).push(head[start + i]));
        assert(suf@.take(i + 1) == suf@.take(i as int).push(suf@[i as int]));
        i += 1;
    }
    assert(suf@ == suf@.take(suf.len() as int));
    true
}

/// White space as Unicode defines it (the property `White_Space`).
pub open spec fn is_space(c: char) -> bool {
    let u = c as u32;
    ||| 0x09 <= u <= 0x0D
    ||| u == 0x20
    ||| u == 0x85
    ||| u == 0xA0
    ||| u == 0x1680
    ||| 0x2000 <= u <= 0x200A
    ||| u == 0x2028
    ||| u == 0x2029
    ||| u == 0x202F
    ||| u == 0x205F
    ||| u == 0x3000
}

/// Whether `c` is white space.
pub fn space(c: char) -> (r: bool)
    ensures
        r == is_space(c),
{
    let u: u32 = c as u32;
    (0x09 <= u && u <= 0x0D) || u == 0x20 || u == 0x85 || u == 0xA0 || u == 0x1680 || (0x2000 <= u
        && u <= 0x200A) || u == 0x2028 || u == 0x2029 || u == 0x202F || u == 0x205F || u == 0x3000
}

/// How many white-space characters `s` begins with.
pub open spec fn leading_spaces(s: Seq<char>) -> nat
    decreases s.len(),
{
    if s.len() > 0 && is_space(s[0]) {
        1 + leading_spaces(s.drop_first())
    } else {
        0
    }
}

/// How many white-space characters `s` ends with.
pub open spec fn trailing_spaces(s: Seq<char>) -> nat
    decreases s.len(),
{
    if s.len() > 0 && is_space(s.last()) {
        1 + trailing_spaces(s.drop_last())
    } else {
        0
    }
}

/// `s` without the white space at its two ends.
pub open spec fn trim(s: Seq<char>) -> Seq<char> {
    let rest = s.skip(leading_spaces(s) as int);
    rest.take(rest.len() - trailing_spaces(rest))
}

/// The bounds `(a, b)` of what is left of `v[lo..hi]` once it is trimmed.
pub fn trim_range(v: &Vec<char>, lo: usize, hi: usize) -> (r: (usize, usize))
    requires
        lo <= hi <= v.len(),
    ensures
        lo <= r.0 <= r.1 <= hi,
        v@.subrange(r.0 as int, r.1 as int) == trim(v@.subrange(lo as int, hi as int)),
{
    let ghost s = v@.subrange(lo as int, hi as int);
    let mut a: usize = lo;
    assert(s.skip(0) == s);
    while a < hi && space(v[a])
        invariant
            lo <= a <= hi <= v.len(),
            s == v@.subrange(lo as int, hi as int),
            leading_spaces(s) == (a - lo) + leading_spaces(s.skip(a - lo)),
        decreases hi - a,
    {
        assert(s.skip(a - lo).drop_first() == s.skip(a - lo + 1));
        a += 1;
    }
    assert(leading_spaces(s) == a - lo) by {
        if a < hi {
            assert(s.skip(a - lo)[0] == v@[a as int]);
        }
    }
    let ghost rest = s.skip(a - lo);
    assert(rest == v@.subrange(a as int, hi as int));
    let mut b: usize = hi;
    assert(rest.take(hi - a) == rest);
    while a < b && space(v[b - 1])
        invariant
            a <= b <= hi <= v.len(),
            rest == v@.subrange(a as int, hi as int),
            trailing_spaces(rest) == (hi - b) + trailing_spaces(rest.take(b - a)),
        decreases b - a,
    {
        assert(rest.take(b - a).drop_last() == rest.take(b - a - 1));
        b -= 1;
    }
    assert(trailing_spaces(rest) == hi - b) by {
        if a < b {
            assert(rest.take(b - a).last() == v@[b - 1]);
        }
    }
    assert(rest.take(rest.len() - trailing_spaces(rest)) == v@.subrange(a as int, b as int));
    (a, b)
}

/// Whether `s` holds nothing but white space.
pub fn is_blank(s: &str) -> (r: bool)
    ensures
        r == (trim(s@).len() == 0),
{
    let v = chars_of(s);
    let (a, b) = trim_range(&v, 0, v.len());
    assert(v@.subrange(0, v.len() as int) == v@);
    a == b
}

/// The text of a string that may be absent.
pub open spec fn opt_text(s: Option<String>) -> Option<Seq<char>> {
    match s {
        Some(t) => Some(t@),
        None => None,
    }
}

/// A string that holds `s`, where there is one.
pub fn opt_owned(s: Option<&str>) -> (r: Option<String>)
    ensures
        match s {
            Some(t) => opt_text(r) == Some(t@),
            None => r is None,
        },
{
    match s {
        Some(t) => Some(t.to_owned()),
        None => None,
    }
}

} // verus!
