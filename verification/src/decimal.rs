//! Decimal numerals: reading them from text, and writing whole numbers and
//! fixed-point amounts back as text.
//!
//! Nothing here uses floating point. A numeral is read into a whole part and
//! nine digits of fraction; an amount is a natural number of units together
//! with the number of decimal places that the unit stands for.

use vstd::prelude::*;

verus! {

/// Whether `c` is one of the ten digits.
pub open spec fn is_digit(c: char) -> bool {
    '0' <= c && c <= '9'
}

/// The number that a digit stands for.
pub open spec fn digit_value(c: char) -> nat {
    (c as u32 - 48) as nat
}

/// The digit that stands for `d`, for `d < 10`.
pub open spec fn digit_char(d: nat) -> char {
    (48 + d) as u8 as char
}

/// Whether `s` holds nothing but digits.
pub open spec fn all_digits(s: Seq<char>) -> bool {
    forall|i: int| 0 <= i < s.len() ==> is_digit(#[trigger] s[i])
}

/// The number that a sequence of digits stands for; the empty sequence
/// stands for zero.
pub open spec fn digits_value(s: Seq<char>) -> nat
    decreases s.len(),
{
    if s.len() == 0 {
        0
    } else {
        digits_value(s.drop_last()) * 10 + digit_value(s.last())
    }
}

/// The decimal digits of `n`, without leading zeros.
pub open spec fn digits_text(n: nat) -> Seq<char>
    decreases n,
{
    if n < 10 {
        seq![digit_char(n)]
    } else {
        digits_text(n / 10).push(digit_char(n % 10))
    }
}

/// Ten to the power of `k`.
pub open spec fn pow10(k: nat) -> nat
    decreases k,
{
    if k == 0 {
        1
    } else {
        10 * pow10((k - 1) as nat)
    }
}

/// The last `places` decimal digits of `frac`, with leading zeros.
pub open spec fn frac_text(frac: nat, places: nat) -> Seq<char>
    decreases places,
{
    if places == 0 {
        Seq::empty()
    } else {
        frac_text(frac / 10, (places - 1) as nat).push(digit_char(frac % 10))
    }
}

/// `s` without its trailing zeros, of which the last is kept where `s` holds
/// nothing else.
pub open spec fn strip_zeros(s: Seq<char>) -> Seq<char>
    decreases s.len(),
{
    if s.len() > 1 && s.last() == '0' {
        strip_zeros(s.drop_last())
    } else {
        s
    }
}

/// `units / 10^places`, written with exactly `places` digits after the point.
pub open spec fn fixed_text(units: nat, places: nat) -> Seq<char> {
    digits_text(units / pow10(places)) + seq!['.'] + frac_text(units % pow10(places), places)
}

/// `units / 10^places`, written with as few digits after the point as hold
/// its value, and at least one.
pub open spec fn short_text(units: nat, places: nat) -> Seq<char> {
    digits_text(units / pow10(places)) + seq!['.'] + strip_zeros(
        frac_text(units % pow10(places), places),
    )
}

/// `units / 10^places`, written as a number is where only its value counts:
/// without a point where it is whole, and else with as few digits after the
/// point as hold its value.
pub open spec fn plain_text(units: nat, places: nat) -> Seq<char> {
    if units % pow10(places) == 0 {
        digits_text(units / pow10(places))
    } else {
        short_text(units, places)
    }
}

/// `units / 10^drop`, rounded to the nearest whole number, halves upwards.
pub open spec fn rounded(units: nat, drop: nat) -> nat {
    let p = pow10(drop);
    if 2 * (units % p) >= p {
        units / p + 1
    } else {
        units / p
    }
}

/// The digit that stands for `d`.
pub fn digit(d: u8) -> (c: char)
    requires
        d < 10,
    ensures
        c == digit_char(d as nat),
        is_digit(c),
        digit_value(c) == d,
{
    (48u8 + d) as char
}

/// Appends the characters of `tail`, last first.
fn push_reversed(out: &mut String, tail: &Vec<char>, from: usize)
    requires
        from <= tail.len(),
    ensures
        final(out)@ == old(out)@ + tail@.skip(from as int).reverse(),
{
    let mut i: usize = tail.len();
    let ghost rest = tail@.skip(from as int);
    while i > from
        invariant
            from <= i <= tail.len(),
            rest == tail@.skip(from as int),
            out@ == old(out)@ + rest.reverse().take(tail.len() - i),
        decreases i,
    {
        i -= 1;
        out.push(tail[i]);
        assert(rest.reverse().take(tail.len() - i) == rest.reverse().take(
            tail.len() - i - 1,
        ).push(tail@[i as int]));
    }
    assert(rest.reverse().take(rest.len() as int) == rest.reverse());
}

/// Appends the decimal digits of `n`.
pub fn push_digits(out: &mut String, n: u128)
    ensures
        final(out)@ == old(out)@ + digits_text(n as nat),
{
    let mut tail: Vec<char> = Vec::new();
    let mut m: u128 = n;
    while m >= 10
        invariant
            digits_text(n as nat) == digits_text(m as nat) + tail@.reverse(),
        decreases m,
    {
        let ghost before = tail@;
        tail.push(digit((m % 10) as u8));
        assert(tail@.reverse() == seq![digit_char((m % 10) as nat)] + before.reverse());
        m = m / 10;
    }
    out.push(digit(m as u8));
    assert(tail@.skip(0) == tail@);
    push_reversed(out, &tail, 0);
}

/// Appends the last `places` digits of `frac`; where `shorten` is set, without
/// their trailing zeros.
pub fn push_frac(out: &mut String, frac: u128, places: usize, shorten: bool)
    ensures
        final(out)@ == old(out)@ + (if shorten {
            strip_zeros(frac_text(frac as nat, places as nat))
        } else {
            frac_text(frac as nat, places as nat)
        }),
{
    let mut tail: Vec<char> = Vec::new();
    let mut m: u128 = frac;
    let mut k: usize = 0;
    while k < places
        invariant
            k <= places,
            tail.len() == k,
            frac_text(frac as nat, places as nat) == frac_text(m as nat, (places - k) as nat)
                + tail@.reverse(),
        decreases places - k,
    {
        let ghost before = tail@;
        tail.push(digit((m % 10) as u8));
        assert(tail@.reverse() == seq![digit_char((m % 10) as nat)] + before.reverse());
        m = m / 10;
        k += 1;
    }
    assert(frac_text(frac as nat, places as nat) == tail@.reverse());
    let mut from: usize = 0;
    if shorten {
        assert(tail@.skip(0) == tail@);
        while tail.len() - from > 1 && tail[from] == '0'
            invariant
                from <= tail.len(),
                strip_zeros(tail@.reverse()) == strip_zeros(tail@.skip(from as int).reverse()),
            decreases tail.len() - from,
        {
            assert(tail@.skip(from as int).reverse().drop_last() == tail@.skip(
                from + 1,
            ).reverse());
            from += 1;
        }
        assert(strip_zeros(tail@.skip(from as int).reverse()) == tail@.skip(
            from as int,
        ).reverse()) by {
            let r = tail@.skip(from as int).reverse();
            if r.len() > 1 {
                assert(r.last() == tail@[from as int]);
            }
        }
    } else {
        assert(tail@.skip(0) == tail@);
    }
    push_reversed(out, &tail, from);
}

/// The largest number of decimal places that an amount can have: ten to
/// this power still fits 128 bits.
pub const PLACES_MAX: usize = 38;

/// Ten to the power of `places`.
pub fn power_of_ten(places: usize) -> (scale: u128)
    requires
        places <= PLACES_MAX,
    ensures
        scale == pow10(places as nat),
{
    let mut scale: u128 = 1;
    let mut k: usize = 0;
    while k < places
        invariant
            k <= places <= PLACES_MAX,
            scale == pow10(k as nat),
        decreases places - k,
    {
        assert(pow10(k as nat) <= 10_000_000_000_000_000_000_000_000_000_000_000_000) by {
            lemma_pow10_monotonic(k as nat, 37);
            reveal_with_fuel(pow10, 38);
        }
        scale = scale * 10;
        k += 1;
    }
    scale
}

/// Appends `units / 10^places` in decimal: with exactly `places` digits
/// after the point or, where `shorten` is set, without the trailing zeros
/// among them.
pub fn push_amount(out: &mut String, units: u128, places: usize, shorten: bool)
    requires
        places <= PLACES_MAX,
    ensures
        final(out)@ == old(out)@ + (if shorten {
            short_text(units as nat, places as nat)
        } else {
            fixed_text(units as nat, places as nat)
        }),
{
    let scale = power_of_ten(places);
    assert(scale > 0) by {
        lemma_pow10_positive(places as nat);
    }
    push_digits(out, units / scale);
    out.push('.');
    push_frac(out, units % scale, places, shorten);
}

/// Appends `units / 10^places` in decimal, without a point where it is
/// whole, and else without trailing zeros after the point.
pub fn push_plain(out: &mut String, units: u128, places: usize)
    requires
        places <= PLACES_MAX,
    ensures
        final(out)@ == old(out)@ + plain_text(units as nat, places as nat),
{
    let scale = power_of_ten(places);
    assert(scale > 0) by {
        lemma_pow10_positive(places as nat);
    }
    if units % scale == 0 {
        push_digits(out, units / scale);
    } else {
        push_amount(out, units, places, true);
    }
}

/// A power of ten is not zero.
pub proof fn lemma_pow10_positive(k: nat)
    ensures
        pow10(k) > 0,
    decreases k,
{
    if k > 0 {
        lemma_pow10_positive((k - 1) as nat);
    }
}

/// A larger exponent gives no smaller power of ten.
pub proof fn lemma_pow10_monotonic(a: nat, b: nat)
    requires
        a <= b,
    ensures
        pow10(a) <= pow10(b),
    decreases b,
{
    lemma_pow10_positive(a);
    if a < b {
        lemma_pow10_monotonic(a, (b - 1) as nat);
    }
}

/// The number that `c` stands for, where it is a digit.
pub fn digit_of(c: char) -> (r: Option<u8>)
    ensures
        r is Some <==> is_digit(c),
        r matches Some(d) ==> d == digit_value(c) && d < 10,
{
    if '0' <= c && c <= '9' {
        Some((c as u8) - 48)
    } else {
        None
    }
}

/// The place of the first point in `s`; the length of `s` where it has none.
pub open spec fn point_index(s: Seq<char>) -> nat
    decreases s.len(),
{
    if s.len() == 0 || s[0] == '.' {
        0
    } else {
        1 + point_index(s.drop_first())
    }
}

/// The first point of a text stands within the text, or at its end.
pub proof fn lemma_point_index_bound(s: Seq<char>)
    ensures
        point_index(s) <= s.len(),
    decreases s.len(),
{
    if !(s.len() == 0 || s[0] == '.') {
        lemma_point_index_bound(s.drop_first());
    }
}

/// What stands before the first point of `s`.
pub open spec fn whole_digits(s: Seq<char>) -> Seq<char> {
    s.take(point_index(s) as int)
}

/// What stands after the first point of `s`.
pub open spec fn frac_digits(s: Seq<char>) -> Seq<char> {
    if point_index(s) < s.len() {
        s.skip(point_index(s) as int + 1)
    } else {
        Seq::empty()
    }
}

/// A plain numeral is made of digits with at most one point among them, and
/// holds at least one digit.
pub open spec fn is_plain_numeral(s: Seq<char>) -> bool {
    &&& all_digits(whole_digits(s))
    &&& all_digits(frac_digits(s))
    &&& whole_digits(s).len() + frac_digits(s).len() > 0
}

/// A text without the plus sign that it may begin with.
pub open spec fn unsigned(s: Seq<char>) -> Seq<char> {
    if s.len() > 0 && s[0] == '+' {
        s.drop_first()
    } else {
        s
    }
}

/// The place of the first `a` or `b` in `s`; the length of `s` where it has
/// neither.
pub open spec fn index_of_either(s: Seq<char>, a: char, b: char) -> nat
    decreases s.len(),
{
    if s.len() == 0 || s[0] == a || s[0] == b {
        0
    } else {
        1 + index_of_either(s.drop_first(), a, b)
    }
}

/// What stands before the first `e` or `E` of `s`.
pub open spec fn mantissa(s: Seq<char>) -> Seq<char> {
    s.take(index_of_either(s, 'e', 'E') as int)
}

/// What stands after the first `e` or `E` of `s`, where it has one.
pub open spec fn exponent_text(s: Seq<char>) -> Option<Seq<char>> {
    if index_of_either(s, 'e', 'E') < s.len() {
        Some(s.skip(index_of_either(s, 'e', 'E') as int + 1))
    } else {
        None
    }
}

/// An exponent without the sign that it may begin with.
pub open spec fn exponent_digits(x: Seq<char>) -> Seq<char> {
    if x.len() > 0 && (x[0] == '+' || x[0] == '-') {
        x.drop_first()
    } else {
        x
    }
}

/// An exponent is made of digits, at least one, which a sign may stand
/// before.
pub open spec fn is_exponent(x: Seq<char>) -> bool {
    exponent_digits(x).len() > 0 && all_digits(exponent_digits(x))
}

/// An exponent counts as at most this, in either direction.
pub const EXPONENT_MAX: u64 = 10_000;

/// The number that an exponent stands for, and `EXPONENT_MAX` or its
/// opposite where it is beyond that.
pub open spec fn exponent_value(x: Seq<char>) -> int {
    let d = digits_value(exponent_digits(x));
    let m = if d > EXPONENT_MAX {
        EXPONENT_MAX as int
    } else {
        d as int
    };
    if x.len() > 0 && x[0] == '-' {
        -m
    } else {
        m
    }
}

/// The exponent of a text; zero where it has none.
pub open spec fn exponent_of(s: Seq<char>) -> int {
    match exponent_text(s) {
        Some(x) => exponent_value(x),
        None => 0,
    }
}

/// A plain numeral, which an exponent may follow behind an `e` or `E`.
pub open spec fn is_scientific(s: Seq<char>) -> bool {
    is_plain_numeral(mantissa(s)) && match exponent_text(s) {
        Some(x) => is_exponent(x),
        None => true,
    }
}

/// As many zeros as `k`.
pub open spec fn zeros(k: nat) -> Seq<char> {
    Seq::new(k, |i: int| '0')
}

/// The digits `d` that stand before the point where the point stands behind
/// the first `p` of them; where `p` is beyond them, zeros fill the places
/// between.
pub open spec fn placed_whole(d: Seq<char>, p: int) -> Seq<char> {
    if p <= 0 {
        Seq::empty()
    } else if p <= d.len() {
        d.take(p)
    } else {
        d + zeros((p - d.len()) as nat)
    }
}

/// The digits `d` that stand after the point where the point stands behind
/// the first `p` of them; where `p` is below zero, zeros fill the places
/// between.
pub open spec fn placed_frac(d: Seq<char>, p: int) -> Seq<char> {
    if p <= 0 {
        zeros((-p) as nat) + d
    } else if p <= d.len() {
        d.skip(p)
    } else {
        Seq::empty()
    }
}

/// The digits `d` with a point behind the first `p` of them.
pub open spec fn placed(d: Seq<char>, p: int) -> Seq<char> {
    placed_whole(d, p) + seq!['.'] + placed_frac(d, p)
}

/// The plain numeral that has the value of `s`: the digits of its mantissa,
/// with the point moved by its exponent: to the right, or to the left
/// where the exponent is below zero.
pub open spec fn without_exponent(s: Seq<char>) -> Seq<char> {
    placed(
        whole_digits(mantissa(s)) + frac_digits(mantissa(s)),
        whole_digits(mantissa(s)).len() + exponent_of(s),
    )
}

/// A numeral is a plain numeral, which a plus sign may stand before and an
/// exponent behind: `12`, `0.5`, `.5`, `5.`, `+1`, `1e3` and `2.5E-1` are
/// numerals; `-1`, `++1`, `1.2.3`, `.`, `1e`, `e3`, `inf`, `nan` and the
/// empty text are not.
pub open spec fn is_numeral(s: Seq<char>) -> bool {
    is_scientific(unsigned(s))
}

/// The largest whole part that a numeral is read with.
pub const WHOLE_MAX: u64 = 1_000_000_000_000_000;

/// How many parts a whole is divided into when a numeral is read.
pub const NANOS: u64 = 1_000_000_000;

/// The whole part of a plain numeral, and `WHOLE_MAX` where it is larger
/// than that.
pub open spec fn plain_whole(s: Seq<char>) -> nat {
    let v = digits_value(whole_digits(s));
    if v > WHOLE_MAX {
        WHOLE_MAX as nat
    } else {
        v
    }
}

/// The whole part of a numeral, and `WHOLE_MAX` where it is larger than that.
pub open spec fn numeral_whole(s: Seq<char>) -> nat {
    plain_whole(without_exponent(unsigned(s)))
}

/// The first nine digits of `f`, with zeros where `f` has fewer.
pub open spec fn nine_digits(f: Seq<char>) -> Seq<char> {
    Seq::new(
        9,
        |i: int|
            if i < f.len() {
                f[i]
            } else {
                '0'
            },
    )
}

/// The fraction of a plain numeral in billionths; digits after the ninth are
/// dropped.
pub open spec fn plain_nanos(s: Seq<char>) -> nat {
    digits_value(nine_digits(frac_digits(s)))
}

/// The fraction of a numeral in billionths; digits after the ninth are
/// dropped.
pub open spec fn numeral_nanos(s: Seq<char>) -> nat {
    plain_nanos(without_exponent(unsigned(s)))
}

/// A numeral as it was read: `whole + nanos / 10^9`.
#[derive(Clone, Copy, Debug, PartialEq, Eq, Structural)]
pub struct Numeral {
    pub whole: u64,
    pub nanos: u32,
}

/// Where the plain numeral in `v[lo..hi]` begins: behind the plus sign, if
/// there is one.
pub fn skip_plus(v: &Vec<char>, lo: usize, hi: usize) -> (from: usize)
    requires
        lo <= hi <= v.len(),
    ensures
        lo <= from <= hi,
        v@.subrange(from as int, hi as int) == unsigned(v@.subrange(lo as int, hi as int)),
{
    if lo < hi && v[lo] == '+' {
        assert(v@.subrange(lo as int, hi as int).drop_first() == v@.subrange(lo + 1, hi as int));
        lo + 1
    } else {
        lo
    }
}

/// The first point of a text is the first of its characters that is a
/// point.
pub proof fn lemma_point_index_is_index(s: Seq<char>)
    ensures
        point_index(s) == index_of_either(s, '.', '.'),
    decreases s.len(),
{
    if !(s.len() == 0 || s[0] == '.') {
        lemma_point_index_is_index(s.drop_first());
    }
}

/// Digits, a point and digits again are a plain numeral where there is a
/// digit among them, and the digits are what they are made of.
pub proof fn lemma_plain_numeral(w: Seq<char>, f: Seq<char>)
    requires
        all_digits(w),
        all_digits(f),
    ensures
        whole_digits(w + seq!['.'] + f) == w,
        frac_digits(w + seq!['.'] + f) == f,
        is_plain_numeral(w + seq!['.'] + f) <==> w.len() + f.len() > 0,
    decreases w.len(),
{
    let t = w + seq!['.'] + f;
    assert(point_index(t) == w.len()) by {
        lemma_point_index_of(w, seq!['.'] + f);
        assert(t == w + (seq!['.'] + f));
    }
    assert(t.take(w.len() as int) == w);
    assert(t.skip(w.len() as int + 1) == f);
}

/// Digits before a text that begins with a point put the first point where
/// the digits end.
pub proof fn lemma_point_index_of(w: Seq<char>, rest: Seq<char>)
    requires
        all_digits(w),
        rest.len() > 0,
        rest[0] == '.',
    ensures
        point_index(w + rest) == w.len(),
    decreases w.len(),
{
    if w.len() > 0 {
        assert(is_digit(w[0]));
        assert((w + rest).drop_first() == w.drop_first() + rest);
        assert(all_digits(w.drop_first())) by {
            assert forall|i: int| 0 <= i < w.drop_first().len() implies is_digit(
                #[trigger] w.drop_first()[i],
            ) by {
                assert(w.drop_first()[i] == w[i + 1]);
            }
        }
        lemma_point_index_of(w.drop_first(), rest);
    } else {
        assert(w + rest == rest);
    }
}

/// The place of the first `a` or `b` in `v[lo..hi]`, and `hi` where there is
/// neither.
pub fn find_either(v: &Vec<char>, lo: usize, hi: usize, a: char, b: char) -> (i: usize)
    requires
        lo <= hi <= v.len(),
    ensures
        lo <= i <= hi,
        i - lo == index_of_either(v@.subrange(lo as int, hi as int), a, b),
{
    let ghost s = v@.subrange(lo as int, hi as int);
    let mut i: usize = lo;
    assert(s.skip(0) == s);
    while i < hi && v[i] != a && v[i] != b
        invariant
            lo <= i <= hi <= v.len(),
            s == v@.subrange(lo as int, hi as int),
            index_of_either(s, a, b) == (i - lo) + index_of_either(s.skip(i - lo), a, b),
        decreases hi - i,
    {
        assert(s.skip(i - lo)[0] == v@[i as int]);
        assert(s.skip(i - lo).drop_first() == s.skip(i - lo + 1));
        i += 1;
    }
    assert(index_of_either(s.skip(i - lo), a, b) == 0) by {
        if i < hi {
            assert(s.skip(i - lo)[0] == v@[i as int]);
        }
    }
    i
}

/// Appends `v[lo..hi]` to `out`.
pub fn append_range(out: &mut Vec<char>, v: &Vec<char>, lo: usize, hi: usize)
    requires
        lo <= hi <= v.len(),
    ensures
        final(out)@ == old(out)@ + v@.subrange(lo as int, hi as int),
{
    let mut i: usize = lo;
    while i < hi
        invariant
            lo <= i <= hi <= v.len(),
            out@ == old(out)@ + v@.subrange(lo as int, i as int),
        decreases hi - i,
    {
        out.push(v[i]);
        assert(v@.subrange(lo as int, i + 1) == v@.subrange(lo as int, i as int).push(v@[i as int]));
        i += 1;
    }
}

/// Appends `k` zeros to `out`.
pub fn append_zeros(out: &mut Vec<char>, k: usize)
    ensures
        final(out)@ == old(out)@ + zeros(k as nat),
{
    let mut i: usize = 0;
    while i < k
        invariant
            i <= k,
            out@ == old(out)@ + zeros(i as nat),
        decreases k - i,
    {
        out.push('0');
        assert(zeros((i + 1) as nat) == zeros(i as nat).push('0'));
        i += 1;
    }
}

/// Reads the exponent that stands behind the `e` at `v[mark]`.
fn read_exponent(v: &Vec<char>, mark: usize, hi: usize) -> (r: Option<i64>)
    requires
        mark < hi <= v.len(),
    ensures
        r is Some <==> is_exponent(v@.subrange(mark + 1, hi as int)),
        r matches Some(e) ==> e == exponent_value(v@.subrange(mark + 1, hi as int)) && -10_000
            <= e <= 10_000,
{
    let ghost x = v@.subrange(mark + 1, hi as int);
    let signed: bool = mark + 1 < hi && (v[mark + 1] == '+' || v[mark + 1] == '-');
    let negative: bool = mark + 1 < hi && v[mark + 1] == '-';
    let digits_from: usize = if signed {
        mark + 2
    } else {
        mark + 1
    };
    assert(v@.subrange(digits_from as int, hi as int) == exponent_digits(x)) by {
        if signed {
            assert(x[0] == v@[mark + 1]);
            assert(x.drop_first() == v@.subrange(mark + 2, hi as int));
        } else if mark + 1 < hi {
            assert(x[0] == v@[mark + 1]);
        }
    }
    if negative {
        assert(x[0] == '-');
    } else if mark + 1 < hi {
        assert(x[0] == v@[mark + 1]);
    }
    match read_digits(v, digits_from, hi, EXPONENT_MAX) {
        None => None,
        Some(n) => if negative {
            Some(-(n as i64))
        } else {
            Some(n as i64)
        },
    }
}

/// The digits of the plain numeral `v[lo..hi]`, without its point, and how
/// many of them stand before the point.
fn gather_digits(v: &Vec<char>, lo: usize, hi: usize) -> (r: (Vec<char>, usize))
    requires
        lo <= hi <= v.len(),
        is_plain_numeral(v@.subrange(lo as int, hi as int)),
    ensures
        r.0@ == whole_digits(v@.subrange(lo as int, hi as int)) + frac_digits(
            v@.subrange(lo as int, hi as int),
        ),
        r.1 == whole_digits(v@.subrange(lo as int, hi as int)).len(),
        r.1 <= r.0.len(),
        all_digits(r.0@),
        r.0.len() > 0,
{
    let ghost m = v@.subrange(lo as int, hi as int);
    let point = find_either(v, lo, hi, '.', '.');
    proof {
        lemma_point_index_is_index(m);
    }
    assert(whole_digits(m) == v@.subrange(lo as int, point as int));
    let mut digits: Vec<char> = Vec::new();
    append_range(&mut digits, v, lo, point);
    if point < hi {
        assert(frac_digits(m) == v@.subrange(point + 1, hi as int));
        append_range(&mut digits, v, point + 1, hi);
    }
    assert(digits@ == whole_digits(m) + frac_digits(m));
    (digits, point - lo)
}

/// The digits `digits` with a point behind the first `place` of them.
fn place_point(digits: &Vec<char>, place: i128) -> (plain: Vec<char>)
    requires
        all_digits(digits@),
        digits.len() > 0,
        -10_000 <= place <= digits.len() + 10_000,
    ensures
        plain@ == placed(digits@, place as int),
        is_plain_numeral(plain@),
{
    let mut plain: Vec<char> = Vec::new();
    if place <= 0 {
        plain.push('.');
        append_zeros(&mut plain, (-place) as usize);
        append_range(&mut plain, digits, 0, digits.len());
        assert(digits@.subrange(0, digits.len() as int) == digits@);
    } else if place <= digits.len() as i128 {
        append_range(&mut plain, digits, 0, place as usize);
        plain.push('.');
        append_range(&mut plain, digits, place as usize, digits.len());
    } else {
        append_range(&mut plain, digits, 0, digits.len());
        assert(digits@.subrange(0, digits.len() as int) == digits@);
        append_zeros(&mut plain, (place - digits.len() as i128) as usize);
        plain.push('.');
    }
    proof {
        let w = placed_whole(digits@, place as int);
        let f = placed_frac(digits@, place as int);
        assert(plain@ == w + seq!['.'] + f);
        assert(all_digits(w));
        assert(all_digits(f));
        lemma_plain_numeral(w, f);
    }
    plain
}

/// Reads `v[lo..hi]` as a numeral.
pub fn read_numeral(v: &Vec<char>, lo: usize, hi: usize) -> (r: Option<Numeral>)
    requires
        lo <= hi <= v.len(),
    ensures
        r is Some <==> is_numeral(v@.subrange(lo as int, hi as int)),
        r matches Some(n) ==> {
            &&& n.whole == numeral_whole(v@.subrange(lo as int, hi as int))
            &&& n.nanos == numeral_nanos(v@.subrange(lo as int, hi as int))
            &&& n.whole <= WHOLE_MAX
            &&& n.nanos < NANOS
        },
{
    let from = skip_plus(v, lo, hi);
    let ghost s = v@.subrange(from as int, hi as int);
    let mark = find_either(v, from, hi, 'e', 'E');
    assert(mantissa(s) == v@.subrange(from as int, mark as int));
    if read_plain(v, from, mark).is_none() {
        return None;
    }
    let mut exponent: i64 = 0;
    if mark < hi {
        assert(exponent_text(s) == Some(v@.subrange(mark + 1, hi as int)));
        match read_exponent(v, mark, hi) {
            None => {
                return None;
            },
            Some(e) => {
                exponent = e;
            },
        }
    }
    let (digits, before) = gather_digits(v, from, mark);
    let plain = place_point(&digits, before as i128 + exponent as i128);
    assert(plain@ == without_exponent(s));
    assert(plain@.subrange(0, plain.len() as int) == plain@);
    read_plain(&plain, 0, plain.len())
}

/// Reads `v[lo..hi]` as a plain numeral.
fn read_plain(v: &Vec<char>, lo: usize, hi: usize) -> (r: Option<Numeral>)
    requires
        lo <= hi <= v.len(),
    ensures
        r is Some <==> is_plain_numeral(v@.subrange(lo as int, hi as int)),
        r matches Some(n) ==> {
            &&& n.whole == plain_whole(v@.subrange(lo as int, hi as int))
            &&& n.nanos == plain_nanos(v@.subrange(lo as int, hi as int))
            &&& n.whole <= WHOLE_MAX
            &&& n.nanos < NANOS
        },
{
    let ghost s = v@.subrange(lo as int, hi as int);
    let mut i: usize = lo;
    let mut whole: u64 = 0;
    assert(s.skip(0) == s);
    while i < hi && v[i] != '.'
        invariant
            lo <= i <= hi <= v.len(),
            s == v@.subrange(lo as int, hi as int),
            point_index(s) == (i - lo) + point_index(s.skip(i - lo)),
            all_digits(s.take(i - lo)),
            whole <= WHOLE_MAX,
            whole == (if digits_value(s.take(i - lo)) > WHOLE_MAX {
                WHOLE_MAX as nat
            } else {
                digits_value(s.take(i - lo))
            }),
        decreases hi - i,
    {
        assert(s.skip(i - lo)[0] == v@[i as int]);
        assert(s.skip(i - lo).drop_first() == s.skip(i - lo + 1));
        assert(s.take(i - lo + 1).drop_last() == s.take(i - lo));
        match digit_of(v[i]) {
            None => {
                proof {
                    lemma_point_index_bound(s);
                    assert(point_index(s) > i - lo);
                    assert(whole_digits(s)[i - lo] == v@[i as int]);
                }
                return None;
            },
            Some(d) => {
                let next: u64 = whole * 10 + d as u64;
                whole = if next > WHOLE_MAX {
                    WHOLE_MAX
                } else {
                    next
                };
            },
        }
        i += 1;
    }
    assert(point_index(s) == i - lo) by {
        if i < hi {
            assert(s.skip(i - lo)[0] == v@[i as int]);
        }
    }
    let start: usize = if i < hi {
        i + 1
    } else {
        hi
    };
    let ghost frac = frac_digits(s);
    assert(frac == v@.subrange(start as int, hi as int));
    let mut j: usize = start;
    while j < hi
        invariant
            lo <= start <= j <= hi <= v.len(),
            frac == v@.subrange(start as int, hi as int),
            frac == frac_digits(v@.subrange(lo as int, hi as int)),
            all_digits(frac.take(j - start)),
        decreases hi - j,
    {
        if digit_of(v[j]).is_none() {
            assert(frac[j - start] == v@[j as int]);
            return None;
        }
        j += 1;
    }
    assert(frac.take(hi - start) == frac);
    if i - lo + (hi - start) == 0 {
        return None;
    }
    let ghost nine = nine_digits(frac);
    let mut nanos: u32 = 0;
    let mut k: usize = 0;
    while k < 9
        invariant
            k <= 9,
            start <= hi <= v.len(),
            frac == v@.subrange(start as int, hi as int),
            all_digits(frac),
            nine == nine_digits(frac),
            nanos == digits_value(nine.take(k as int)),
            nanos < pow10(k as nat),
        decreases 9 - k,
    {
        assert(pow10(k as nat) <= 100_000_000) by {
            lemma_pow10_monotonic(k as nat, 8);
            reveal_with_fuel(pow10, 9);
        }
        assert(nine.take(k + 1).drop_last() == nine.take(k as int));
        let d: u8 = if k < hi - start {
            assert(frac[k as int] == v@[start + k]);
            match digit_of(v[start + k]) {
                Some(d) => d,
                None => 0,
            }
        } else {
            0
        };
        assert(d == digit_value(nine[k as int]));
        nanos = nanos * 10 + d as u32;
        k += 1;
    }
    assert(nine.take(9) == nine);
    assert(pow10(9) == 1_000_000_000) by {
        reveal_with_fuel(pow10, 10);
    }
    Some(Numeral { whole, nanos })
}

/// The number that digits stand for, and `cap` where it is larger than that;
/// nothing where `v[lo..hi]` is empty or holds anything but digits.
pub fn read_digits(v: &Vec<char>, lo: usize, hi: usize, cap: u64) -> (r: Option<u64>)
    requires
        lo <= hi <= v.len(),
        cap <= 1_000_000_000_000_000_000,
    ensures
        r is Some <==> (lo < hi && all_digits(v@.subrange(lo as int, hi as int))),
        r matches Some(n) ==> n == (if digits_value(v@.subrange(lo as int, hi as int)) > cap {
            cap as nat
        } else {
            digits_value(v@.subrange(lo as int, hi as int))
        }),
{
    let ghost s = v@.subrange(lo as int, hi as int);
    if lo == hi {
        return None;
    }
    let mut i: usize = lo;
    let mut acc: u64 = 0;
    while i < hi
        invariant
            lo <= i <= hi <= v.len(),
            s == v@.subrange(lo as int, hi as int),
            all_digits(s.take(i - lo)),
            cap <= 1_000_000_000_000_000_000,
            acc <= cap,
            acc == (if digits_value(s.take(i - lo)) > cap {
                cap as nat
            } else {
                digits_value(s.take(i - lo))
            }),
        decreases hi - i,
    {
        assert(s.take(i - lo + 1).drop_last() == s.take(i - lo));
        match digit_of(v[i]) {
            None => {
                assert(s[i - lo] == v@[i as int]);
                return None;
            },
            Some(d) => {
                let next: u64 = acc * 10 + d as u64;
                acc = if next > cap {
                    cap
                } else {
                    next
                };
            },
        }
        i += 1;
    }
    assert(s.take(hi - lo) == s);
    Some(acc)
}

} // verus!
