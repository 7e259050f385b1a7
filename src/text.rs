//! Character-level helpers: trimming, splitting on a separator and
//! reading unsigned decimal numbers, each stated over `Seq<char>`.
use vstd::prelude::*;
use vstd::string::*;

verus! {

/// Unicode `White_Space`, the set that `char::is_whitespace` and `str::trim` use.
pub open spec fn is_white(c: char) -> bool {
    ('\u{9}' <= c && c <= '\u{d}') || c == ' ' || c == '\u{85}' || c == '\u{a0}'
        || c == '\u{1680}' || ('\u{2000}' <= c && c <= '\u{200a}') || c == '\u{2028}'
        || c == '\u{2029}' || c == '\u{202f}' || c == '\u{205f}' || c == '\u{3000}'
}

/// `s` without every trailing occurrence of `c`.
pub open spec fn trim_end_char(s: Seq<char>, c: char) -> Seq<char>
    decreases s.len(),
{
    if s.len() > 0 && s.last() == c {
        trim_end_char(s.drop_last(), c)
    } else {
        s
    }
}

/// `s` without trailing whitespace.
pub open spec fn trim_end_white(s: Seq<char>) -> Seq<char>
    decreases s.len(),
{
    if s.len() > 0 && is_white(s.last()) {
        trim_end_white(s.drop_last())
    } else {
        s
    }
}

/// `s` without leading whitespace.
pub open spec fn trim_start_white(s: Seq<char>) -> Seq<char>
    decreases s.len(),
{
    if s.len() > 0 && is_white(s[0]) {
        trim_start_white(s.skip(1))
    } else {
        s
    }
}

/// `s` without leading and trailing whitespace.
pub open spec fn trim_white(s: Seq<char>) -> Seq<char> {
    trim_start_white(trim_end_white(s))
}

/// The text of `s` before the first `sep`, or all of `s` when there is none.
pub open spec fn before_sep(s: Seq<char>, sep: char) -> Seq<char>
    decreases s.len(),
{
    if s.len() == 0 {
        s
    } else if s[0] == sep {
        Seq::empty()
    } else {
        seq![s[0]] + before_sep(s.skip(1), sep)
    }
}

/// The text of `s` after the first `sep`, if `s` holds one.
pub open spec fn after_sep(s: Seq<char>, sep: char) -> Option<Seq<char>>
    decreases s.len(),
{
    if s.len() == 0 {
        None
    } else if s[0] == sep {
        Some(s.skip(1))
    } else {
        after_sep(s.skip(1), sep)
    }
}

/// The characters of each string.
pub open spec fn strings_view(v: Seq<String>) -> Seq<Seq<char>> {
    v.map_values(|s: String| s@)
}

pub open spec fn is_digit(c: char) -> bool {
    '0' <= c && c <= '9'
}

pub open spec fn digit_value(c: char) -> nat {
    (c as u32 - '0' as u32) as nat
}

pub open spec fn all_digits(s: Seq<char>) -> bool {
    forall|i: int| 0 <= i < s.len() ==> is_digit(#[trigger] s[i])
}

/// The number that the decimal digits `s` write.
pub open spec fn decimal_value(s: Seq<char>) -> nat
    decreases s.len(),
{
    if s.len() == 0 {
        0
    } else {
        decimal_value(s.drop_last()) * 10 + digit_value(s.last())
    }
}

/// What `u32`'s `FromStr` accepts: an optional `+`, then one or more ASCII
/// digits whose value fits in 32 bits.
pub open spec fn parse_u32(s: Seq<char>) -> Option<u32> {
    let d = if s.len() > 0 && s[0] == '+' { s.skip(1) } else { s };
    if d.len() > 0 && all_digits(d) && decimal_value(d) <= u32::MAX {
        Some(decimal_value(d) as u32)
    } else {
        None
    }
}

proof fn lemma_decimal_value_grows(s: Seq<char>, i: int, j: int)
    requires
        0 <= i <= j <= s.len(),
    ensures
        decimal_value(s.subrange(0, i)) <= decimal_value(s.subrange(0, j)),
    decreases j - i,
{
    if i < j {
        lemma_decimal_value_grows(s, i, j - 1);
        assert(s.subrange(0, j).drop_last() =~= s.subrange(0, j - 1));
    }
}

/// The characters of `s`, one per element.
pub fn chars_of(s: &str) -> (r: Vec<char>)
    ensures
        r@ == s@,
{
    let n = s.unicode_len();
    let mut r: Vec<char> = Vec::new();
    let mut i: usize = 0;
    while i < n
        invariant
            n == s@.len(),
            i <= n,
            r@ == s@.subrange(0, i as int),
        decreases n - i,
    {
        r.push(s.get_char(i));
        i += 1;
    }
    assert(r@ =~= s@);
    r
}

pub fn is_white_char(c: char) -> (r: bool)
    ensures
        r == is_white(c),
{
    ('\u{9}' <= c && c <= '\u{d}') || c == ' ' || c == '\u{85}' || c == '\u{a0}'
        || c == '\u{1680}' || ('\u{2000}' <= c && c <= '\u{200a}') || c == '\u{2028}'
        || c == '\u{2029}' || c == '\u{202f}' || c == '\u{205f}' || c == '\u{3000}'
}

/// End of `cs[..hi]` once every trailing `c` is removed.
pub(crate) fn trim_end_char_at(cs: &Vec<char>, hi: usize, c: char) -> (k: usize)
    requires
        hi <= cs@.len(),
    ensures
        k <= hi,
        cs@.subrange(0, k as int) == trim_end_char(cs@.subrange(0, hi as int), c),
{
    let mut k = hi;
    while k > 0 && cs[k - 1] == c
        invariant
            k <= hi <= cs@.len(),
            trim_end_char(cs@.subrange(0, hi as int), c) == trim_end_char(cs@.subrange(0, k as int), c),
        decreases k,
    {
        assert(cs@.subrange(0, k as int).drop_last() =~= cs@.subrange(0, k - 1));
        k -= 1;
    }
    k
}

/// End of `cs[lo..hi]` once trailing whitespace is removed.
pub(crate) fn trim_end_white_at(cs: &Vec<char>, lo: usize, hi: usize) -> (k: usize)
    requires
        lo <= hi <= cs@.len(),
    ensures
        lo <= k <= hi,
        cs@.subrange(lo as int, k as int) == trim_end_white(cs@.subrange(lo as int, hi as int)),
{
    let mut k = hi;
    while k > lo && is_white_char(cs[k - 1])
        invariant
            lo <= k <= hi <= cs@.len(),
            trim_end_white(cs@.subrange(lo as int, hi as int)) == trim_end_white(cs@.subrange(lo as int, k as int)),
        decreases k,
    {
        assert(cs@.subrange(lo as int, k as int).drop_last() =~= cs@.subrange(lo as int, k - 1));
        k -= 1;
    }
    k
}

/// Start of `cs[lo..hi]` once leading whitespace is removed.
pub(crate) fn trim_start_white_at(cs: &Vec<char>, lo: usize, hi: usize) -> (k: usize)
    requires
        lo <= hi <= cs@.len(),
    ensures
        lo <= k <= hi,
        cs@.subrange(k as int, hi as int) == trim_start_white(cs@.subrange(lo as int, hi as int)),
{
    let mut k = lo;
    while k < hi && is_white_char(cs[k])
        invariant
            lo <= k <= hi <= cs@.len(),
            trim_start_white(cs@.subrange(lo as int, hi as int)) == trim_start_white(cs@.subrange(k as int, hi as int)),
        decreases hi - k,
    {
        assert(cs@.subrange(k as int, hi as int).skip(1) =~= cs@.subrange(k + 1, hi as int));
        k += 1;
    }
    k
}

/// Index of the first `sep` in `cs[lo..hi]`, or `hi`.
pub(crate) fn find_sep(cs: &Vec<char>, lo: usize, hi: usize, sep: char) -> (k: usize)
    requires
        lo <= hi <= cs@.len(),
    ensures
        lo <= k <= hi,
        before_sep(cs@.subrange(lo as int, hi as int), sep) == cs@.subrange(lo as int, k as int),
        after_sep(cs@.subrange(lo as int, hi as int), sep) == (if k < hi {
            Some(cs@.subrange(k + 1, hi as int))
        } else {
            None
        }),
{
    let mut k = lo;
    while k < hi && cs[k] != sep
        invariant
            lo <= k <= hi <= cs@.len(),
            before_sep(cs@.subrange(lo as int, hi as int), sep)
                == cs@.subrange(lo as int, k as int) + before_sep(cs@.subrange(k as int, hi as int), sep),
            after_sep(cs@.subrange(lo as int, hi as int), sep) == after_sep(cs@.subrange(k as int, hi as int), sep),
        decreases hi - k,
    {
        let ghost rest = cs@.subrange(k as int, hi as int);
        assert(rest.skip(1) =~= cs@.subrange(k + 1, hi as int));
        assert(rest[0] == cs@[k as int]);
        assert(cs@.subrange(lo as int, k as int) + (seq![rest[0]] + before_sep(rest.skip(1), sep))
            =~= cs@.subrange(lo as int, k + 1) + before_sep(cs@.subrange(k + 1, hi as int), sep));
        k += 1;
    }
    if k < hi {
        let ghost rest = cs@.subrange(k as int, hi as int);
        assert(rest.skip(1) =~= cs@.subrange(k + 1, hi as int));
        assert(cs@.subrange(lo as int, k as int) + Seq::<char>::empty() =~= cs@.subrange(lo as int, k as int));
    } else {
        assert(cs@.subrange(lo as int, k as int) + Seq::<char>::empty() =~= cs@.subrange(lo as int, k as int));
    }
    k
}

/// Reads `cs[lo..hi]` as `u32`'s `FromStr` would.
pub fn parse_u32_in(cs: &Vec<char>, lo: usize, hi: usize) -> (r: Option<u32>)
    requires
        lo <= hi <= cs@.len(),
    ensures
        r == parse_u32(cs@.subrange(lo as int, hi as int)),
{
    let ghost s = cs@.subrange(lo as int, hi as int);
    let mut start = lo;
    if lo < hi && cs[lo] == '+' {
        start = lo + 1;
    }
    let ghost d = cs@.subrange(start as int, hi as int);
    assert(d == (if s.len() > 0 && s[0] == '+' { s.skip(1) } else { s }));
    if start == hi {
        return None;
    }
    let mut value: u64 = 0;
    let mut i = start;
    while i < hi
        invariant
            start <= i <= hi <= cs@.len(),
            d == cs@.subrange(start as int, hi as int),
            s == cs@.subrange(lo as int, hi as int),
            d == (if s.len() > 0 && s[0] == '+' { s.skip(1) } else { s }),
            value == decimal_value(d.subrange(0, i - start)),
            value <= u32::MAX,
            all_digits(d.subrange(0, i - start)),
        decreases hi - i,
    {
        let c = cs[i];
        if !('0' <= c && c <= '9') {
            assert(d[i - start] == c);
            assert(!all_digits(d));
            assert(parse_u32(s).is_none());
            return None;
        }
        let ghost k = i - start;
        assert(d.subrange(0, k + 1).drop_last() =~= d.subrange(0, k));
        assert(d.subrange(0, k + 1).last() == c);
        let digit = (c as u32 - '0' as u32) as u64;
        assert(value * 10 + digit <= 42949672959) by (nonlinear_arith)
            requires
                value <= u32::MAX,
                digit <= 9,
        ;
        value = value * 10 + digit;
        assert(all_digits(d.subrange(0, k + 1))) by {
            assert forall|j: int| 0 <= j < k + 1 implies is_digit(#[trigger] d.subrange(0, k + 1)[j]) by {
                if j < k {
                    assert(d.subrange(0, k + 1)[j] == d.subrange(0, k)[j]);
                }
            }
        }
        if value > u32::MAX as u64 {
            proof {
                lemma_decimal_value_grows(d, k + 1, d.len() as int);
                assert(d.subrange(0, d.len() as int) =~= d);
                assert(decimal_value(d) > u32::MAX);
                assert(parse_u32(s).is_none());
            }
            return None;
        }
        i += 1;
    }
    assert(d.subrange(0, i - start) =~= d);
    Some(value as u32)
}

pub open spec fn digit_char(d: nat) -> char {
    (('0' as u32) + d) as char
}

/// The decimal text of `n`, without leading zeros.
pub open spec fn decimal_text(n: nat) -> Seq<char>
    decreases n,
{
    if n < 10 {
        seq![digit_char(n)]
    } else {
        decimal_text(n / 10).push(digit_char(n % 10))
    }
}

fn digit_str(d: u32) -> (r: &'static str)
    requires
        d < 10,
    ensures
        r@ == seq![digit_char(d as nat)],
{
    let digits = "0123456789";
    proof {
        reveal_strlit("0123456789");
    }
    let r = digits.substring_char(d as usize, d as usize + 1);
    assert(r@ =~= seq![digit_char(d as nat)]);
    r
}

/// Appends the decimal text of `n` to `out`.
pub fn push_decimal(out: &mut String, n: u32)
    ensures
        final(out)@ == old(out)@ + decimal_text(n as nat),
    decreases n,
{
    if n < 10 {
        out.append(digit_str(n));
    } else {
        push_decimal(out, n / 10);
        out.append(digit_str(n % 10));
        assert(final(out)@ =~= old(out)@ + decimal_text(n as nat));
    }
}

} // verus!
