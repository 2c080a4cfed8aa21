//! Display text of the scalar values a cell can hold: integers, exact
//! decimals and UUIDs.
use vstd::prelude::*;

verus! {

/// The character of a decimal digit `d < 10`.
pub open spec fn digit_char(d: int) -> char {
    (('0' as int) + d) as char
}

/// The decimal digits of `n`, most significant first, with no leading zero;
/// empty for zero.
pub open spec fn digits_of(n: nat) -> Seq<char>
    decreases n,
{
    if n == 0 {
        Seq::empty()
    } else {
        digits_of(n / 10).push(digit_char((n % 10) as int))
    }
}

/// Base-10 text of an integer: a leading `-` for negatives, `"0"` for zero.
pub open spec fn int_text(n: int) -> Seq<char> {
    let magnitude = if n < 0 { digits_of((-n) as nat) } else { digits_of(n as nat) };
    if n == 0 {
        seq!['0']
    } else if n < 0 {
        seq!['-'] + magnitude
    } else {
        magnitude
    }
}

/// Relies on the decimal `Display` of `i64` (through `ToString`): base-10
/// digits with a leading minus sign for negative values.
#[verifier::external_body]
pub(crate) fn integer_text(n: i64) -> (r: String)
    ensures
        r@ == int_text(n as int),
{
    n.to_string()
}

/// Largest magnitude of a decimal's mantissa: 96 bits.
pub const DECIMAL_MAX_MANTISSA: i128 = 79228162514264337593543950335;

/// Largest number of fractional digits a decimal may carry.
pub const DECIMAL_MAX_SCALE: u32 = 28;

/// `n` copies of the digit zero.
pub open spec fn zeros(n: nat) -> Seq<char> {
    Seq::new(n, |i: int| '0')
}

/// The digits of `|mantissa|`, left-padded with zeros to at least `scale`
/// digits, so that the point can be placed `scale` digits from the right.
pub open spec fn padded_digits(mantissa: int, scale: nat) -> Seq<char> {
    let d = digits_of(if mantissa < 0 { (-mantissa) as nat } else { mantissa as nat });
    if d.len() < scale {
        zeros((scale - d.len()) as nat) + d
    } else {
        d
    }
}

/// Text of the exact decimal `mantissa * 10^-scale`, keeping every one of its
/// `scale` fractional digits (trailing zeros included): `10500` at scale 3 is
/// `"10.500"`, `5` at scale 2 is `"0.05"`, `-7` at scale 0 is `"-7"`.
pub open spec fn decimal_number_text(mantissa: int, scale: nat) -> Seq<char> {
    let p = padded_digits(mantissa, scale);
    let whole = p.len() - scale;
    let body = if scale == 0 {
        if p.len() == 0 { seq!['0'] } else { p }
    } else {
        (if whole == 0 { seq!['0'] } else { p.subrange(0, whole) }) + seq!['.'] + p.subrange(
            whole,
            p.len() as int,
        )
    };
    if mantissa < 0 {
        seq!['-'] + body
    } else {
        body
    }
}

/// Whether a mantissa and scale describe a value that a decimal column can hold.
pub open spec fn decimal_in_range(mantissa: int, scale: nat) -> bool {
    &&& -(DECIMAL_MAX_MANTISSA as int) <= mantissa <= DECIMAL_MAX_MANTISSA as int
    &&& scale <= DECIMAL_MAX_SCALE as nat
}

/// Relies on `rust_decimal::Decimal::from_i128_with_scale`, which builds the
/// decimal (and panics outside the range required here), and on its
/// `Display`, which writes the magnitude's digits with the point `scale`
/// digits from the right, a `0` before a bare point, and `-` for negatives.
#[verifier::external_body]
pub(crate) fn decimal_text(mantissa: i128, scale: u32) -> (r: String)
    requires
        decimal_in_range(mantissa as int, scale as nat),
    ensures
        r@ == decimal_number_text(mantissa as int, scale as nat),
{
    rust_decimal::Decimal::from_i128_with_scale(mantissa, scale).to_string()
}

/// The lowercase hexadecimal character of a nibble `d < 16`.
pub open spec fn hex_char(d: int) -> char {
    if d < 10 {
        digit_char(d)
    } else {
        (('a' as int) + d - 10) as char
    }
}

/// Nibble `k` of a 128-bit value, counting from the most significant (`k < 32`).
pub open spec fn nibble(v: u128, k: int) -> int {
    ((v >> ((124 - 4 * k) as u128)) & 0xf) as int
}

/// Whether position `i` of a hyphenated UUID holds a hyphen.
pub open spec fn is_uuid_hyphen(i: int) -> bool {
    i == 8 || i == 13 || i == 18 || i == 23
}

/// The nibble shown at position `i` of a hyphenated UUID (not a hyphen).
pub open spec fn uuid_nibble_index(i: int) -> int {
    if i < 8 {
        i
    } else if i < 13 {
        i - 1
    } else if i < 18 {
        i - 2
    } else if i < 23 {
        i - 3
    } else {
        i - 4
    }
}

/// The canonical text of a UUID whose 16 bytes, big-endian, form `v`:
/// 32 lowercase hex digits in groups of 8-4-4-4-12 joined by hyphens.
pub open spec fn uuid_text_of(v: u128) -> Seq<char> {
    Seq::new(
        36,
        |i: int|
            if is_uuid_hyphen(i) {
                '-'
            } else {
                hex_char(nibble(v, uuid_nibble_index(i)))
            },
    )
}

/// Relies on `uuid::Uuid::from_u128`, which takes the value's bytes in
/// big-endian order, and on the UUID's `Display`, the lowercase hyphenated form.
#[verifier::external_body]
pub(crate) fn uuid_text(v: u128) -> (r: String)
    ensures
        r@ == uuid_text_of(v),
{
    uuid::Uuid::from_u128(v).to_string()
}

/// Whether `c` is one of `0` to `9`.
pub open spec fn is_decimal_digit(c: char) -> bool {
    '0' <= c && c <= '9'
}

/// Whether `c` is one of `0` to `9` or `a` to `f`.
pub open spec fn is_lower_hex_digit(c: char) -> bool {
    is_decimal_digit(c) || ('a' <= c && c <= 'f')
}

proof fn lemma_digits_are_decimal(n: nat)
    ensures
        forall|k: int| 0 <= k < digits_of(n).len() ==> is_decimal_digit(#[trigger] digits_of(n)[k]),
    decreases n,
{
    if n != 0 {
        lemma_digits_are_decimal(n / 10);
        let c = digit_char((n % 10) as int);
        assert(c as int == 48 + n % 10);
        assert(is_decimal_digit(c));
        assert(digits_of(n) == digits_of(n / 10).push(c));
    }
}

/// A decimal keeps its stored scale: with a positive scale `s` its text ends
/// in a point followed by exactly `s` digits (trailing zeros kept); with scale
/// zero it has no point and is an optional minus sign followed by digits.
pub proof fn lemma_decimal_keeps_scale(mantissa: int, scale: nat)
    ensures
        ({
            let t = decimal_number_text(mantissa, scale);
            scale > 0 ==> {
                &&& t.len() >= scale + 2
                &&& t[t.len() - scale - 1] == '.'
                &&& forall|k: int| t.len() - scale <= k < t.len() ==> is_decimal_digit(#[trigger] t[k])
            }
        }),
        ({
            let t = decimal_number_text(mantissa, scale);
            scale == 0 ==> forall|k: int|
                0 <= k < t.len() ==> is_decimal_digit(#[trigger] t[k]) || (k == 0 && t[k] == '-' && mantissa < 0)
        }),
{
    let m: nat = if mantissa < 0 { (-mantissa) as nat } else { mantissa as nat };
    lemma_digits_are_decimal(m);
    let d = digits_of(m);
    let p = padded_digits(mantissa, scale);
    assert forall|k: int| 0 <= k < p.len() implies is_decimal_digit(#[trigger] p[k]) by {
        if d.len() < scale {
            let z = zeros((scale - d.len()) as nat);
            if k >= z.len() {
                assert(p[k] == d[k - z.len()]);
            }
        }
    }
    let t = decimal_number_text(mantissa, scale);
    let whole = p.len() - scale;
    if scale > 0 {
        let head = if whole == 0 { seq!['0'] } else { p.subrange(0, whole) };
        let body = head + seq!['.'] + p.subrange(whole, p.len() as int);
        assert(body.len() == head.len() + 1 + scale);
        assert(body[body.len() - scale - 1] == '.');
        assert forall|k: int| body.len() - scale <= k < body.len() implies is_decimal_digit(#[trigger] body[k]) by {
            assert(body[k] == p[whole + (k - (body.len() - scale))]);
        }
        if mantissa < 0 {
            assert(t == seq!['-'] + body);
            assert forall|k: int| t.len() - scale <= k < t.len() implies is_decimal_digit(#[trigger] t[k]) by {
                assert(t[k] == body[k - 1]);
            }
        }
    } else {
        let body = if p.len() == 0 { seq!['0'] } else { p };
        assert forall|k: int| 0 <= k < body.len() implies is_decimal_digit(#[trigger] body[k]) by {}
        if mantissa < 0 {
            assert(t == seq!['-'] + body);
            assert forall|k: int| 0 <= k < t.len() implies is_decimal_digit(#[trigger] t[k]) || (k == 0 && t[k] == '-' && mantissa < 0) by {
                if k > 0 {
                    assert(t[k] == body[k - 1]);
                }
            }
        }
    }
}

/// A UUID's text is 36 characters: hyphens at positions 8, 13, 18 and 23,
/// and a lowercase hexadecimal digit everywhere else.
pub proof fn lemma_uuid_text_shape(v: u128)
    ensures
        uuid_text_of(v).len() == 36,
        forall|i: int| 0 <= i < 36 && is_uuid_hyphen(i) ==> #[trigger] uuid_text_of(v)[i] == '-',
        forall|i: int| 0 <= i < 36 && !is_uuid_hyphen(i) ==> is_lower_hex_digit(#[trigger] uuid_text_of(v)[i]),
{
    assert forall|i: int| 0 <= i < 36 && !is_uuid_hyphen(i) implies is_lower_hex_digit(#[trigger] uuid_text_of(v)[i]) by {
        let k = uuid_nibble_index(i);
        let sh = (124 - 4 * k) as u128;
        let x = v >> sh;
        assert(x & 0xf <= 15u128) by (bit_vector);
    }
}

} // verus!
