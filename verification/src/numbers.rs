//! Numeric text fields and their values.
//!
//! The scene editor hands every numeric parameter over as text. This module
//! fixes the grammar of such a field — an optional sign, digits, and at most
//! one decimal dot — and parses it exactly: the value is kept as a sign, an
//! integer mantissa and a power-of-ten exponent, so nothing is rounded.
//! A field that does not match the grammar (or whose mantissa does not fit)
//! falls back to the value zero; parse failures are absorbed here and never
//! propagated into the simulation.

use vstd::prelude::*;
use vstd::string::StringSliceAdditionalSpecFns;

verus! {

/// An exactly represented decimal number: the value is
/// `mantissa * 10^exponent`, negated if `negative` is set.
#[derive(Clone, Copy, Debug, PartialEq, Eq, Structural)]
pub struct Decimal {
    pub negative: bool,
    pub mantissa: u64,
    pub exponent: i32,
}

impl Decimal {
    /// The zero fallback value of an unparsable field.
    pub open spec fn spec_zero() -> Decimal {
        Decimal { negative: false, mantissa: 0, exponent: 0 }
    }

    /// The zero fallback value of an unparsable field.
    pub fn zero() -> (d: Decimal)
        ensures
            d == Decimal::spec_zero(),
    {
        Decimal { negative: false, mantissa: 0, exponent: 0 }
    }
}

/// The bytes of a text field, as the parser sees them: the UTF-8 encoding of
/// its characters.
pub open spec fn text_bytes(s: Seq<char>) -> Seq<u8> {
    vstd::utf8::encode_utf8(s)
}

/// ASCII digit.
pub open spec fn is_digit(b: u8) -> bool {
    48 <= b <= 57
}

/// Value of a string of ASCII digits, most significant first.
pub open spec fn digits_value(s: Seq<u8>) -> int
    decreases s.len(),
{
    if s.len() == 0 {
        0
    } else {
        digits_value(s.drop_last()) * 10 + (s.last() - 48)
    }
}

/// Position of the first decimal dot in `s`, or `s.len()` when there is none.
pub open spec fn dot_position(s: Seq<u8>) -> int
    decreases s.len(),
{
    if s.len() == 0 {
        0
    } else if s[0] == 46 {
        0
    } else {
        1 + dot_position(s.skip(1))
    }
}

/// `s` is an unsigned decimal numeral: every byte is a digit except at most
/// one dot, and there is at least one digit.
pub open spec fn is_numeral(s: Seq<u8>) -> bool {
    let d = dot_position(s);
    &&& forall|i: int| 0 <= i < s.len() && i != d ==> is_digit(#[trigger] s[i])
    &&& s.len() > (if d < s.len() {
        1int
    } else {
        0int
    })
}

/// The digits of a numeral, with the dot (if any) removed.
pub open spec fn numeral_digits(s: Seq<u8>) -> Seq<u8> {
    let d = dot_position(s);
    if d < s.len() {
        s.take(d) + s.skip(d + 1)
    } else {
        s
    }
}

/// The mantissa a numeral denotes: the value of its digits.
pub open spec fn numeral_mantissa(s: Seq<u8>) -> int {
    digits_value(numeral_digits(s))
}

/// How many digits follow the dot of a numeral; zero when there is no dot.
pub open spec fn numeral_frac_len(s: Seq<u8>) -> int {
    let d = dot_position(s);
    if d < s.len() {
        s.len() - d - 1
    } else {
        0
    }
}

/// `s` starts with an explicit sign byte.
pub open spec fn has_sign(s: Seq<u8>) -> bool {
    s.len() > 0 && (s[0] == 43 || s[0] == 45)
}

/// `s` without its sign byte, if it has one.
pub open spec fn numeral_body(s: Seq<u8>) -> Seq<u8> {
    if has_sign(s) {
        s.skip(1)
    } else {
        s
    }
}

/// `s` is a decimal text: an optional sign followed by a numeral.
pub open spec fn is_decimal_text(s: Seq<u8>) -> bool {
    is_numeral(numeral_body(s))
}

/// `s` denotes a negative number.
pub open spec fn is_negative_text(s: Seq<u8>) -> bool {
    s.len() > 0 && s[0] == 45
}

/// Whether the value of a decimal text is representable: its mantissa fits in
/// a `u64` and its fraction length in an `i32`.
pub open spec fn decimal_fits(s: Seq<u8>) -> bool {
    &&& numeral_mantissa(numeral_body(s)) <= u64::MAX
    &&& numeral_frac_len(numeral_body(s)) <= i32::MAX
}

/// The value a numeric text field denotes, with the zero fallback for a field
/// that does not match the grammar or does not fit.
pub open spec fn decimal_or_zero(s: Seq<u8>) -> Decimal {
    if is_decimal_text(s) && decimal_fits(s) {
        Decimal {
            negative: is_negative_text(s),
            mantissa: numeral_mantissa(numeral_body(s)) as u64,
            exponent: (-numeral_frac_len(numeral_body(s))) as i32,
        }
    } else {
        Decimal::spec_zero()
    }
}

/// The same value read in a unit a thousand times larger: a thousandfold.
pub open spec fn spec_kilo(d: Decimal) -> Decimal {
    Decimal { negative: d.negative, mantissa: d.mantissa, exponent: (d.exponent + 3) as i32 }
}

/// The same value read in a unit a thousand times larger: a thousandfold.
pub fn kilo(d: Decimal) -> (r: Decimal)
    requires
        d.exponent <= i32::MAX - 3,
    ensures
        r == spec_kilo(d),
{
    Decimal { negative: d.negative, mantissa: d.mantissa, exponent: d.exponent + 3 }
}

/// `s` is a count: an optional plus sign followed by digits only.
pub open spec fn is_count_text(s: Seq<u8>) -> bool {
    let body = count_body(s);
    &&& body.len() > 0
    &&& forall|i: int| 0 <= i < body.len() ==> is_digit(#[trigger] body[i])
}

/// `s` without its plus sign, if it has one.
pub open spec fn count_body(s: Seq<u8>) -> Seq<u8> {
    if s.len() > 0 && s[0] == 43 {
        s.skip(1)
    } else {
        s
    }
}

/// The value a count field denotes, with the zero fallback for a field that
/// does not match the grammar or does not fit in a `usize`.
pub open spec fn count_or_zero(s: Seq<u8>) -> int {
    if is_count_text(s) && digits_value(count_body(s)) <= usize::MAX {
        digits_value(count_body(s))
    } else {
        0
    }
}

/// A value of a digit string is never negative.
proof fn lemma_digits_value_nonneg(s: Seq<u8>)
    requires
        forall|i: int| 0 <= i < s.len() ==> is_digit(#[trigger] s[i]),
    ensures
        digits_value(s) >= 0,
    decreases s.len(),
{
    if s.len() > 0 {
        lemma_digits_value_nonneg(s.drop_last());
    }
}

/// A digit string is worth at least any of its prefixes.
proof fn lemma_digits_value_prefix(s: Seq<u8>, k: int)
    requires
        forall|i: int| 0 <= i < s.len() ==> is_digit(#[trigger] s[i]),
        0 <= k <= s.len(),
    ensures
        digits_value(s.take(k)) <= digits_value(s),
    decreases s.len() - k,
{
    if k == s.len() {
        assert(s.take(k) =~= s);
    } else {
        lemma_digits_value_prefix(s.drop_last(), k);
        assert(s.drop_last().take(k) =~= s.take(k));
        lemma_digits_value_nonneg(s.drop_last());
    }
}

/// Where the first dot is: a dot stands there, and none before it.
proof fn lemma_dot_position(s: Seq<u8>)
    ensures
        0 <= dot_position(s) <= s.len(),
        dot_position(s) < s.len() ==> s[dot_position(s)] == 46,
        forall|j: int| 0 <= j < dot_position(s) ==> s[j] != 46,
    decreases s.len(),
{
    if s.len() > 0 && s[0] != 46 {
        lemma_dot_position(s.skip(1));
        assert forall|j: int| 0 <= j < dot_position(s) implies s[j] != 46 by {
            if j > 0 {
                assert(s.skip(1)[j - 1] != 46);
            }
        }
    }
}

/// The digits of the numeral prefix `s.take(i)`, with the dot removed.
spec fn cleaned_prefix(s: Seq<u8>, i: int) -> Seq<u8> {
    let d = dot_position(s);
    if i <= d {
        s.take(i)
    } else {
        s.take(d) + s.subrange(d + 1, i)
    }
}

/// Parse an unsigned decimal numeral: its mantissa and the number of digits
/// after the dot.
fn parse_numeral(s: &[u8]) -> (r: Option<(u64, i32)>)
    ensures
        r is Some <==> is_numeral(s@) && numeral_mantissa(s@) <= u64::MAX && numeral_frac_len(s@)
            <= i32::MAX,
        r matches Some((m, f)) ==> m == numeral_mantissa(s@) && f == numeral_frac_len(s@),
{
    let ghost d = dot_position(s@);
    proof {
        lemma_dot_position(s@);
    }
    let n = s.len();
    let mut i: usize = 0;
    let mut mant: u64 = 0;
    let mut dot_at: Option<usize> = None;
    while i < n
        invariant
            n == s@.len(),
            0 <= i <= n,
            d == dot_position(s@),
            0 <= d <= n,
            d < n ==> s@[d] == 46,
            forall|j: int| 0 <= j < d ==> s@[j] != 46,
            match dot_at {
                Option::None => i <= d,
                Option::Some(p) => p == d && d < i,
            },
            mant == digits_value(cleaned_prefix(s@, i as int)),
            forall|j: int| 0 <= j < i && j != d ==> is_digit(#[trigger] s@[j]),
        decreases n - i,
    {
        let c = s[i];
        if c == 46 {
            match dot_at {
                Option::Some(_) => {
                    // a second dot: the byte at `i` is neither the first dot
                    // nor a digit, so this is no numeral
                    return Option::None;
                },
                Option::None => {
                    proof {
                        if i < d {
                            assert(s@[i as int] != 46);
                        }
                        assert(i == d);
                        assert(cleaned_prefix(s@, i + 1) =~= cleaned_prefix(s@, i as int));
                    }
                    dot_at = Option::Some(i);
                },
            }
        } else if 48 <= c && c <= 57 {
            proof {
                if i == d {
                    assert(s@[d] == 46);
                }
                assert(i != d);
            }
            let dv = (c - 48) as u64;
            if mant > (u64::MAX - dv) / 10 {
                // the mantissa of any numeral extending this prefix would
                // overflow a u64
                proof {
                    let q = ((u64::MAX - dv) / 10) as int;
                    assert(10 * q + (u64::MAX - dv) % 10 == u64::MAX - dv);
                    assert(mant * 10 + dv > u64::MAX);
                    if is_numeral(s@) {
                        let full = numeral_digits(s@);
                        assert forall|j: int| 0 <= j < full.len() implies is_digit(
                            #[trigger] full[j],
                        ) by {
                            if j < d {
                                assert(full[j] == s@[j]);
                            } else {
                                assert(full[j] == s@[j + 1]);
                            }
                        }
                        let k = if i <= d {
                            i as int
                        } else {
                            i - 1
                        };
                        assert(cleaned_prefix(s@, i + 1) =~= full.take(k + 1));
                        assert(digits_value(full.take(k + 1)) == mant * 10 + dv) by {
                            assert(full.take(k + 1).drop_last() =~= cleaned_prefix(s@, i as int));
                            assert(full.take(k + 1).last() == s@[i as int]);
                        }
                        lemma_digits_value_prefix(full, k + 1);
                    }
                }
                return Option::None;
            }
            proof {
                let q = ((u64::MAX - dv) / 10) as int;
                assert(10 * q + (u64::MAX - dv) % 10 == u64::MAX - dv);
                assert(mant * 10 + dv <= u64::MAX);
                assert(cleaned_prefix(s@, i + 1).drop_last() =~= cleaned_prefix(s@, i as int));
                assert(cleaned_prefix(s@, i + 1).last() == s@[i as int]);
            }
            mant = mant * 10 + dv;
        } else {
            // neither a digit nor a dot: the byte at `i` refutes the grammar
            proof {
                if i == d {
                    assert(s@[d] == 46);
                }
                assert(i != d);
            }
            return Option::None;
        }
        i += 1;
    }
    let frac: usize = match dot_at {
        Option::Some(p) => {
            if n < 2 {
                // a lone dot holds no digit
                return Option::None;
            }
            n - p - 1
        },
        Option::None => {
            if n == 0 {
                return Option::None;
            }
            0
        },
    };
    if frac > i32::MAX as usize {
        return Option::None;
    }
    proof {
        match dot_at {
            Option::Some(p) => {
                assert(cleaned_prefix(s@, n as int) =~= numeral_digits(s@));
            },
            Option::None => {
                assert(d == n);
                assert(cleaned_prefix(s@, n as int) =~= numeral_digits(s@));
            },
        }
        assert(is_numeral(s@));
    }
    Option::Some((mant, frac as i32))
}

/// Parse a numeric text field exactly: an optional sign, digits, at most one
/// decimal dot. `None` when the text does not match that grammar, or when its
/// mantissa does not fit in a `u64`.
pub fn parse_decimal(s: &str) -> (r: Option<Decimal>)
    ensures
        r is Some <==> is_decimal_text(s.spec_bytes()) && decimal_fits(s.spec_bytes()),
        r matches Some(v) ==> v == decimal_or_zero(s.spec_bytes()),
{
    let b = s.as_bytes();
    let n = b.len();
    let mut start: usize = 0;
    let mut negative = false;
    if n > 0 && (b[0] == 43 || b[0] == 45) {
        negative = b[0] == 45;
        start = 1;
    }
    let body: &[u8] = &b[start..n];
    proof {
        assert(body@ =~= numeral_body(s.spec_bytes()));
    }
    match parse_numeral(body) {
        Option::Some((mant, frac)) => Option::Some(
            Decimal { negative, mantissa: mant, exponent: 0i32 - frac },
        ),
        Option::None => Option::None,
    }
}

/// The value of a numeric text field, with the zero fallback for an
/// unparsable field.
pub fn parse_decimal_or_zero(s: &str) -> (r: Decimal)
    ensures
        r == decimal_or_zero(s.spec_bytes()),
{
    match parse_decimal(s) {
        Option::Some(d) => d,
        Option::None => Decimal::zero(),
    }
}

/// Parse a count field: an optional plus sign followed by digits. `None` when
/// the text does not match or the value does not fit in a `usize`.
pub fn parse_count(s: &str) -> (r: Option<usize>)
    ensures
        r is Some <==> is_count_text(s.spec_bytes()) && digits_value(count_body(s.spec_bytes()))
            <= usize::MAX,
        r matches Some(c) ==> c == digits_value(count_body(s.spec_bytes())),
{
    let b = s.as_bytes();
    let n = b.len();
    let mut start: usize = 0;
    if n > 0 && b[0] == 43 {
        start = 1;
    }
    let ghost body = count_body(s.spec_bytes());
    proof {
        assert(body =~= b@.subrange(start as int, n as int));
    }
    if n == start {
        return Option::None;
    }
    let mut i: usize = start;
    let mut value: usize = 0;
    while i < n
        invariant
            n == b@.len(),
            start <= i <= n,
            body == count_body(s.spec_bytes()),
            body =~= b@.subrange(start as int, n as int),
            b@ == s.spec_bytes(),
            value == digits_value(body.take(i - start)),
            forall|j: int| 0 <= j < i - start ==> is_digit(#[trigger] body[j]),
        decreases n - i,
    {
        let c = b[i];
        if c < 48 || c > 57 {
            proof {
                assert(body[i - start] == b@[i as int]);
                assert(!is_digit(body[i - start]));
            }
            return Option::None;
        }
        let dv = (c - 48) as usize;
        if value > (usize::MAX - dv) / 10 {
            proof {
                let q = ((usize::MAX - dv) / 10) as int;
                assert(10 * q + (usize::MAX - dv) % 10 == usize::MAX - dv);
                assert(value * 10 + dv > usize::MAX);
                if is_count_text(s.spec_bytes()) {
                    assert(digits_value(body.take(i + 1 - start)) == value * 10 + dv) by {
                        assert(body.take(i + 1 - start).drop_last() =~= body.take(i - start));
                        assert(body.take(i + 1 - start).last() == body[i - start]);
                    }
                    lemma_digits_value_prefix(body, i + 1 - start);
                }
            }
            return Option::None;
        }
        proof {
            let q = ((usize::MAX - dv) / 10) as int;
            assert(10 * q + (usize::MAX - dv) % 10 == usize::MAX - dv);
            assert(value * 10 + dv <= usize::MAX);
            assert(body.take(i + 1 - start).drop_last() =~= body.take(i - start));
            assert(body.take(i + 1 - start).last() == body[i - start]);
        }
        value = value * 10 + dv;
        i += 1;
    }
    proof {
        assert(body.take(n - start) =~= body);
    }
    Option::Some(value)
}

/// The value of a count field, with the zero fallback for an unparsable
/// field.
pub fn parse_count_or_zero(s: &str) -> (r: usize)
    ensures
        r == count_or_zero(s.spec_bytes()),
{
    match parse_count(s) {
        Option::Some(c) => c,
        Option::None => 0,
    }
}

} // verus!
