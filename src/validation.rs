//! Validators for the numbers that a user types: pixel counts, percentages
//! and ratios.
use vstd::prelude::*;
use vstd::string::*;

verus! {

/// `c` is an ASCII decimal digit.
pub open spec fn is_digit(c: char) -> bool {
    '0' <= c && c <= '9'
}

/// Every character of `s` is an ASCII decimal digit.
pub open spec fn all_digits(s: Seq<char>) -> bool {
    forall|i: int| 0 <= i < s.len() ==> is_digit(#[trigger] s[i])
}

/// The value of the digit `c`.
pub open spec fn digit_value(c: char) -> nat {
    (c as int - '0' as int) as nat
}

/// The value of the decimal numeral `s`, most significant digit first.
pub open spec fn digits_value(s: Seq<char>) -> nat
    decreases s.len(),
{
    if s.len() == 0 {
        0
    } else {
        digits_value(s.drop_last()) * 10 + digit_value(s.last())
    }
}

/// The digits of `s` once an optional leading `+` is set aside.
pub open spec fn unsigned_digits(s: Seq<char>) -> Seq<char> {
    if s.len() > 0 && s[0] == '+' {
        s.drop_first()
    } else {
        s
    }
}

/// The `u32` that `s` denotes as an unsigned decimal: an optional `+`, then
/// one or more ASCII digits whose value fits in 32 bits.
pub open spec fn u32_of_text(s: Seq<char>) -> Option<u32> {
    let d = unsigned_digits(s);
    if d.len() > 0 && all_digits(d) && digits_value(d) <= u32::MAX {
        Some(digits_value(d) as u32)
    } else {
        None
    }
}

proof fn lemma_digits_value_step(s: Seq<char>, i: int)
    requires
        0 <= i < s.len(),
    ensures
        digits_value(s.subrange(0, i + 1)) == digits_value(s.subrange(0, i)) * 10 + digit_value(
            s[i],
        ),
{
    assert(s.subrange(0, i + 1).drop_last() =~= s.subrange(0, i));
}

proof fn lemma_digits_prefix_le(s: Seq<char>, j: int)
    requires
        0 <= j <= s.len(),
    ensures
        digits_value(s.subrange(0, j)) <= digits_value(s),
    decreases s.len(),
{
    if j == s.len() {
        assert(s.subrange(0, j) =~= s);
    } else {
        let t = s.drop_last();
        lemma_digits_prefix_le(t, j);
        assert(t.subrange(0, j) =~= s.subrange(0, j));
    }
}

/// Whether the characters `from..to` of `s` are all ASCII digits.
fn digits_only(s: &str, from: usize, to: usize) -> (r: bool)
    requires
        from <= to <= s@.len(),
    ensures
        r == all_digits(s@.subrange(from as int, to as int)),
{
    let mut i = from;
    while i < to
        invariant
            from <= i <= to <= s@.len(),
            all_digits(s@.subrange(from as int, i as int)),
        decreases to - i,
    {
        let c = s.get_char(i);
        if !('0' <= c && c <= '9') {
            assert(s@.subrange(from as int, to as int)[i - from] == c);
            return false;
        }
        assert forall|k: int| 0 <= k < i + 1 - from implies is_digit(
            #[trigger] s@.subrange(from as int, i + 1)[k],
        ) by {
            if k < i - from {
                assert(s@.subrange(from as int, i + 1)[k] == s@.subrange(from as int, i as int)[k]);
            }
        }
        i = i + 1;
    }
    true
}

/// The value of the digits `from..to` of `s`, or `None` where it exceeds `cap`.
fn read_digits(s: &str, from: usize, to: usize, cap: u64) -> (r: Option<u64>)
    requires
        from <= to <= s@.len(),
        all_digits(s@.subrange(from as int, to as int)),
        cap <= u32::MAX,
    ensures
        r == (if digits_value(s@.subrange(from as int, to as int)) <= cap {
            Some(digits_value(s@.subrange(from as int, to as int)) as u64)
        } else {
            None
        }),
{
    let ghost d = s@.subrange(from as int, to as int);
    let mut value: u64 = 0;
    let mut i = from;
    while i < to
        invariant
            from <= i <= to <= s@.len(),
            d == s@.subrange(from as int, to as int),
            all_digits(d),
            cap <= u32::MAX,
            value == digits_value(d.subrange(0, i - from)),
            value <= cap,
        decreases to - i,
    {
        let c = s.get_char(i);
        proof {
            assert(d[i - from] == c);
            assert(is_digit(d[i - from]));
            lemma_digits_value_step(d, i - from);
        }
        let digit = (c as u32 - '0' as u32) as u64;
        let next = value * 10 + digit;
        if next > cap {
            proof {
                lemma_digits_prefix_le(d, i + 1 - from);
            }
            return None;
        }
        value = next;
        i = i + 1;
    }
    assert(d.subrange(0, to - from) =~= d);
    Some(value)
}

/// Reads `s` as an unsigned decimal `u32`, as `u32::from_str` does.
pub fn parse_u32(s: &str) -> (r: Option<u32>)
    ensures
        r == u32_of_text(s@),
{
    let n = s.unicode_len();
    let mut start: usize = 0;
    if n > 0 && s.get_char(0) == '+' {
        start = 1;
    }
    proof {
        let d = unsigned_digits(s@);
        if start == 1 {
            assert(d =~= s@.subrange(1, n as int));
        } else {
            assert(d =~= s@.subrange(0, n as int));
        }
    }
    if start == n || !digits_only(s, start, n) {
        return None;
    }
    match read_digits(s, start, n, 0xFFFF_FFFF) {
        Some(v) => Some(v as u32),
        None => None,
    }
}


/// The message given for a percentage outside `1..100`.
pub open spec fn percent_range_message() -> Seq<char> {
    "Percentage must be a non-zero integer, one hundred excluded."@
}

/// The message given for a text that is no percentage.
pub open spec fn percent_text_message(s: Seq<char>) -> Seq<char> {
    "`"@ + s + "` can't be parsed as a percentage."@
}

/// The message given for a pixel count of zero.
pub open spec fn pixels_range_message() -> Seq<char> {
    "Pixels must be a non-zero integer."@
}

/// The message given for a text that is no pixel count.
pub open spec fn pixels_text_message(s: Seq<char>) -> Seq<char> {
    "`"@ + s + "` can't be parsed as pixels."@
}

/// A percentage that leaves an image neither empty nor unchanged.
pub open spec fn is_valid_percent(v: u32) -> bool {
    1 <= v < 100
}

/// A pixel count that leaves an image non-empty.
pub open spec fn is_valid_pixels(v: u32) -> bool {
    v > 0
}

/// Builds `` `s` `` followed by `tail`.
fn quoted_then(s: &str, tail: &str) -> (r: String)
    ensures
        r@ == "`"@ + s@ + tail@,
{
    String::from_str("`").concat(s).concat(tail)
}

/// Validates a percentage: an unsigned decimal in `1..100`.
pub fn percent_validator(s: &str) -> (r: Result<u32, String>)
    ensures
        match u32_of_text(s@) {
            None => r matches Err(m) && m@ == percent_text_message(s@),
            Some(v) => if is_valid_percent(v) {
                r == Ok::<u32, String>(v)
            } else {
                r matches Err(m) && m@ == percent_range_message()
            },
        },
{
    match parse_u32(s) {
        Some(parsed) => {
            if parsed == 0 || parsed >= 100 {
                Err(String::from_str("Percentage must be a non-zero integer, one hundred excluded."))
            } else {
                Ok(parsed)
            }
        },
        None => Err(quoted_then(s, "` can't be parsed as a percentage.")),
    }
}

/// Validates a pixel count: a non-zero unsigned decimal.
pub fn pixels_validator(s: &str) -> (r: Result<u32, String>)
    ensures
        match u32_of_text(s@) {
            None => r matches Err(m) && m@ == pixels_text_message(s@),
            Some(v) => if is_valid_pixels(v) {
                r == Ok::<u32, String>(v)
            } else {
                r matches Err(m) && m@ == pixels_range_message()
            },
        },
{
    match parse_u32(s) {
        Some(parsed) => {
            if parsed == 0 {
                Err(String::from_str("Pixels must be a non-zero integer."))
            } else {
                Ok(parsed)
            }
        },
        None => Err(quoted_then(s, "` can't be parsed as pixels.")),
    }
}

/// Validates a dimension typed in the given unit: pixels where `is_pixel`,
/// a percentage otherwise.
pub fn dimension_validator(s: &str, is_pixel: bool) -> (r: Result<u32, String>)
    ensures
        is_pixel ==> (match u32_of_text(s@) {
            None => r matches Err(m) && m@ == pixels_text_message(s@),
            Some(v) => if is_valid_pixels(v) {
                r == Ok::<u32, String>(v)
            } else {
                r matches Err(m) && m@ == pixels_range_message()
            },
        }),
        !is_pixel ==> (match u32_of_text(s@) {
            None => r matches Err(m) && m@ == percent_text_message(s@),
            Some(v) => if is_valid_percent(v) {
                r == Ok::<u32, String>(v)
            } else {
                r matches Err(m) && m@ == percent_range_message()
            },
        }),
{
    if is_pixel {
        pixels_validator(s)
    } else {
        percent_validator(s)
    }
}


/// The most digits that a ratio may have after its decimal point.
pub const MAX_FRACTION_DIGITS: usize = 9;

/// A scale factor written as the fraction `numerator / denominator`.
///
/// A ratio that shrinks an image lies in `(0, 1]`; `is_valid` says so.
#[derive(Clone, Copy, Debug, PartialEq, Eq, Structural)]
pub struct Ratio {
    pub numerator: u32,
    pub denominator: u32,
}

impl Ratio {
    /// The fraction lies in `(0, 1]`.
    pub open spec fn is_valid(self) -> bool {
        0 < self.numerator <= self.denominator
    }

    pub fn new(numerator: u32, denominator: u32) -> (r: Ratio)
        ensures
            r.numerator == numerator,
            r.denominator == denominator,
    {
        Ratio { numerator, denominator }
    }

    /// Whether the fraction lies in `(0, 1]`.
    pub fn check(&self) -> (r: bool)
        ensures
            r == self.is_valid(),
    {
        0 < self.numerator && self.numerator <= self.denominator
    }
}

/// `10` to the power `k`.
pub open spec fn pow10(k: nat) -> nat
    decreases k,
{
    if k == 0 {
        1
    } else {
        10 * pow10((k - 1) as nat)
    }
}

/// The index of the first `.` in `s`, or its length where it has none.
pub open spec fn dot_index(s: Seq<char>) -> nat
    decreases s.len(),
{
    if s.len() == 0 {
        0
    } else if s[0] == '.' {
        0
    } else {
        1 + dot_index(s.drop_first())
    }
}

/// What stands before the first `.` of `s`.
pub open spec fn whole_part(s: Seq<char>) -> Seq<char> {
    s.subrange(0, dot_index(s) as int)
}

/// What stands after the first `.` of `s`; empty where it has none.
pub open spec fn fraction_part(s: Seq<char>) -> Seq<char> {
    if dot_index(s) < s.len() {
        s.subrange(dot_index(s) + 1int, s.len() as int)
    } else {
        Seq::empty()
    }
}

/// `s` is a decimal number: digits, then optionally a `.` and at most
/// `MAX_FRACTION_DIGITS` digits, with at least one digit in all.
pub open spec fn is_decimal_text(s: Seq<char>) -> bool {
    &&& all_digits(whole_part(s))
    &&& all_digits(fraction_part(s))
    &&& whole_part(s).len() + fraction_part(s).len() > 0
    &&& fraction_part(s).len() <= MAX_FRACTION_DIGITS
}

/// The numerator of the decimal `s` over `pow10` of its fraction digits.
pub open spec fn decimal_numerator(s: Seq<char>) -> nat {
    digits_value(whole_part(s)) * pow10(fraction_part(s).len()) + digits_value(fraction_part(s))
}

/// The denominator of the decimal `s`: `pow10` of its fraction digits.
pub open spec fn decimal_denominator(s: Seq<char>) -> nat {
    pow10(fraction_part(s).len())
}

/// The message given for a ratio outside `(0, 1]`.
pub open spec fn ratio_range_message() -> Seq<char> {
    "Ratio must be greater than zero and at most one."@
}

/// The message given for a text that is no ratio.
pub open spec fn ratio_text_message(s: Seq<char>) -> Seq<char> {
    "`"@ + s + "` can't be parsed as a ratio."@
}

proof fn lemma_dot_index(s: Seq<char>, i: int)
    requires
        0 <= i <= s.len(),
        forall|j: int| 0 <= j < i ==> s[j] != '.',
        i == s.len() || s[i] == '.',
    ensures
        dot_index(s) == i,
    decreases i,
{
    if i > 0 {
        let t = s.drop_first();
        assert forall|j: int| 0 <= j < i - 1 implies t[j] != '.' by {
            assert(t[j] == s[j + 1]);
        }
        if i < s.len() {
            assert(t[i - 1] == s[i]);
        }
        lemma_dot_index(t, i - 1);
    }
}

proof fn lemma_digits_value_bound(s: Seq<char>)
    requires
        all_digits(s),
    ensures
        digits_value(s) < pow10(s.len()),
    decreases s.len(),
{
    if s.len() > 0 {
        let t = s.drop_last();
        assert(all_digits(t)) by {
            assert forall|i: int| 0 <= i < t.len() implies is_digit(#[trigger] t[i]) by {
                assert(t[i] == s[i]);
            }
        }
        lemma_digits_value_bound(t);
        assert(is_digit(s[s.len() - 1]));
        let a = digits_value(t);
        let p = pow10(t.len());
        assert(a * 10 + 9 < p * 10) by (nonlinear_arith)
            requires
                a < p,
        ;
    }
}

proof fn lemma_pow10_monotone(a: nat, b: nat)
    requires
        a <= b,
    ensures
        1 <= pow10(a) <= pow10(b),
    decreases b,
{
    lemma_pow10_positive(a);
    if a < b {
        lemma_pow10_monotone(a, (b - 1) as nat);
        lemma_pow10_positive((b - 1) as nat);
    }
}

proof fn lemma_pow10_positive(a: nat)
    ensures
        pow10(a) >= 1,
    decreases a,
{
    if a > 0 {
        lemma_pow10_positive((a - 1) as nat);
    }
}

proof fn lemma_pow10_max_fraction()
    ensures
        pow10(MAX_FRACTION_DIGITS as nat) == 1_000_000_000,
{
    reveal_with_fuel(pow10, 10);
}

/// `10` to the power `k`, for `k` up to `MAX_FRACTION_DIGITS`.
fn power_of_ten(k: usize) -> (r: u32)
    requires
        k <= MAX_FRACTION_DIGITS,
    ensures
        r == pow10(k as nat),
{
    let mut r: u32 = 1;
    let mut i: usize = 0;
    while i < k
        invariant
            i <= k <= MAX_FRACTION_DIGITS,
            r == pow10(i as nat),
        decreases k - i,
    {
        proof {
            lemma_pow10_monotone((i + 1) as nat, MAX_FRACTION_DIGITS as nat);
            lemma_pow10_max_fraction();
        }
        r = r * 10;
        i = i + 1;
    }
    r
}


/// Validates a ratio: a decimal number (see `is_decimal_text`) whose value
/// lies in `(0, 1]`, kept as the exact fraction that it writes.
pub fn ratio_validator(s: &str) -> (r: Result<Ratio, String>)
    ensures
        !is_decimal_text(s@) ==> (r matches Err(m) && m@ == ratio_text_message(s@)),
        is_decimal_text(s@) && 0 < decimal_numerator(s@) <= decimal_denominator(s@) ==> r
            == Ok::<Ratio, String>(
            Ratio {
                numerator: decimal_numerator(s@) as u32,
                denominator: decimal_denominator(s@) as u32,
            },
        ),
        is_decimal_text(s@) && !(0 < decimal_numerator(s@) <= decimal_denominator(s@)) ==> (r matches Err(
            m,
        ) && m@ == ratio_range_message()),
        r matches Ok(q) ==> q.is_valid(),
{
    let n = s.unicode_len();
    let mut dot: usize = 0;
    while dot < n && s.get_char(dot) != '.'
        invariant
            dot <= n,
            n == s@.len(),
            forall|j: int| 0 <= j < dot ==> s@[j] != '.',
        decreases n - dot,
    {
        dot = dot + 1;
    }
    proof {
        lemma_dot_index(s@, dot as int);
    }
    let frac_start = if dot < n {
        dot + 1
    } else {
        n
    };
    let frac_len = n - frac_start;
    let ghost whole = s@.subrange(0, dot as int);
    let ghost frac = s@.subrange(frac_start as int, n as int);
    assert(whole == whole_part(s@));
    assert(frac =~= fraction_part(s@));
    if !digits_only(s, 0, dot) || !digits_only(s, frac_start, n) || dot + frac_len == 0
        || frac_len > MAX_FRACTION_DIGITS {
        return Err(quoted_then(s, "` can't be parsed as a ratio."));
    }
    let scale = power_of_ten(frac_len);
    proof {
        lemma_digits_value_bound(frac);
        lemma_pow10_monotone(frac_len as nat, MAX_FRACTION_DIGITS as nat);
        lemma_pow10_max_fraction();
    }
    let frac_value = read_digits(s, frac_start, n, 999_999_999).unwrap();
    match read_digits(s, 0, dot, 1) {
        None => {
            proof {
                let w = digits_value(whole);
                let p = pow10(frac.len());
                assert(w * p + digits_value(frac) > p) by (nonlinear_arith)
                    requires
                        w >= 2,
                        p >= 1,
                ;
            }
            Err(String::from_str("Ratio must be greater than zero and at most one."))
        },
        Some(whole_value) => {
            assert(whole_value * (scale as u64) <= 1_000_000_000) by (nonlinear_arith)
                requires
                    whole_value <= 1,
                    scale <= 1_000_000_000,
            ;
            let numerator = whole_value * (scale as u64) + frac_value;
            if numerator == 0 || numerator > scale as u64 {
                Err(String::from_str("Ratio must be greater than zero and at most one."))
            } else {
                Ok(Ratio::new(numerator as u32, scale))
            }
        },
    }
}

} // verus!
