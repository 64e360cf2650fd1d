//! Field elements: 32 bytes, big-endian, read from hexadecimal or decimal text.

use vstd::arithmetic::div_mod::lemma_div_denominator;
use vstd::prelude::*;
use vstd::slice::slice_subrange;
use vstd::string::StringSliceAdditionalSpecFns;

use crate::error::DecimalError;
use crate::error::Error;
use crate::error::Fault;

verus! {

/// Width in bytes of a field element.
pub const FIELD_BYTES: usize = 32;

/// Whether `c` is one of `0-9`, `A-F`, `a-f`.
pub open spec fn is_hex_digit(c: u8) -> bool {
    (0x30 <= c <= 0x39) || (0x41 <= c <= 0x46) || (0x61 <= c <= 0x66)
}

/// The number that the hexadecimal digit `c` stands for.
pub open spec fn hex_digit_value(c: u8) -> int {
    if 0x30 <= c <= 0x39 {
        c - 0x30
    } else if 0x41 <= c <= 0x46 {
        c - 0x41 + 10
    } else {
        c - 0x61 + 10
    }
}

pub open spec fn all_hex_digits(digits: Seq<u8>) -> bool {
    forall|i: int| 0 <= i < digits.len() ==> is_hex_digit(#[trigger] digits[i])
}

/// The bytes that pairs of hexadecimal digits denote, the high digit first.
pub open spec fn hex_bytes(digits: Seq<u8>) -> Seq<u8> {
    Seq::new(
        digits.len() / 2,
        |i: int| (16 * hex_digit_value(digits[2 * i]) + hex_digit_value(digits[2 * i + 1])) as u8,
    )
}

/// What decoding a run of hexadecimal digits gives: a byte for each pair, or
/// nothing where the count is odd or a character is no digit.
pub open spec fn hex_decoding(digits: Seq<u8>) -> Option<Seq<u8>> {
    if digits.len() % 2 == 0 && all_hex_digits(digits) {
        Some(hex_bytes(digits))
    } else {
        None
    }
}

/// `bytes` at the right end of a field element, zeros before them.
pub open spec fn right_aligned(bytes: Seq<u8>) -> Seq<u8>
    recommends
        bytes.len() <= FIELD_BYTES,
{
    Seq::new(
        FIELD_BYTES as nat,
        |i: int|
            if i < FIELD_BYTES - bytes.len() {
                0u8
            } else {
                bytes[i - (FIELD_BYTES - bytes.len())]
            },
    )
}

/// Why a text denotes no field element.
pub enum FieldFault {
    /// A character after `0x` is not a hexadecimal digit.
    Hex,
    /// More than 64 hexadecimal digits.
    TooLong,
    /// Not an unsigned 128-bit decimal numeral.
    Decimal(DecimalError),
}

impl FieldFault {
    /// The failure that the parser reports for this fault.
    pub open spec fn fault(self) -> Fault {
        match self {
            FieldFault::Hex => Fault::FieldHex,
            FieldFault::TooLong => Fault::FieldTooLong,
            FieldFault::Decimal(fault) => Fault::FieldDecimal(fault),
        }
    }
}

/// The digits with a leading zero digit where their count is odd.
pub open spec fn even_digits(digits: Seq<u8>) -> Seq<u8> {
    if digits.len() % 2 == 1 {
        seq![0x30u8] + digits
    } else {
        digits
    }
}

/// The field element that the digits after `0x` denote.
pub open spec fn field_of_hex(digits: Seq<u8>) -> Result<Seq<u8>, FieldFault> {
    match hex_decoding(even_digits(digits)) {
        None => Err(FieldFault::Hex),
        Some(bytes) => if bytes.len() > FIELD_BYTES {
            Err(FieldFault::TooLong)
        } else {
            Ok(right_aligned(bytes))
        },
    }
}

/// Calls `hex::decode` on the digits. The crate decodes a byte string of even
/// length whose bytes are all hexadecimal digits, of either case, into one byte
/// per pair, the first digit of a pair being the high half; it fails on every
/// other input. The error comes back as its text.
#[verifier::external_body]
fn hex_decode(digits: &[u8]) -> (decoded: Result<Vec<u8>, String>)
    ensures
        match decoded {
            Ok(bytes) => hex_decoding(digits@) == Some(bytes@),
            Err(_) => hex_decoding(digits@) is None,
        },
{
    hex::decode(digits).map_err(|e| e.to_string())
}

/// Places at most 32 bytes at the right end of a zeroed field element.
pub fn right_align(bytes: &[u8]) -> (field: [u8; 32])
    requires
        bytes@.len() <= FIELD_BYTES,
    ensures
        field@ == right_aligned(bytes@),
{
    let mut field = [0u8; 32];
    let offset = FIELD_BYTES - bytes.len();
    let mut i: usize = 0;
    while i < bytes.len()
        invariant
            i <= bytes@.len() <= FIELD_BYTES,
            offset == FIELD_BYTES - bytes@.len(),
            forall|k: int| 0 <= k < offset + i ==> field@[k] == right_aligned(bytes@)[k],
            forall|k: int| offset + i <= k < FIELD_BYTES ==> field@[k] == 0u8,
        decreases bytes@.len() - i,
    {
        field[offset + i] = bytes[i];
        i += 1;
    }
    assert(field@ =~= right_aligned(bytes@));
    field
}

/// Reads the digits that follow `0x` as a field element. An odd count of digits
/// is read as if a zero digit stood before them.
pub fn parse_hex_digits(digits: &[u8]) -> (parsed: Result<[u8; 32], Error>)
    ensures
        match field_of_hex(digits@) {
            Ok(bytes) => parsed matches Ok(field) && field@ == bytes,
            Err(FieldFault::TooLong) => parsed matches Err(Error::FieldTooLong),
            Err(_) => parsed matches Err(Error::FieldHex(_)),
        },
{
    let decoded = if digits.len() % 2 == 1 {
        let mut padded: Vec<u8> = Vec::new();
        padded.push(0x30u8);
        padded.extend_from_slice(digits);
        assert(padded@ =~= even_digits(digits@));
        hex_decode(padded.as_slice())
    } else {
        hex_decode(digits)
    };
    match decoded {
        Err(detail) => Err(Error::FieldHex(detail)),
        Ok(bytes) => {
            if bytes.len() > FIELD_BYTES {
                Err(Error::FieldTooLong)
            } else {
                Ok(right_align(bytes.as_slice()))
            }
        },
    }
}

/// Whether `c` is one of `0-9`.
pub open spec fn is_decimal_digit(c: u8) -> bool {
    0x30 <= c <= 0x39
}

pub open spec fn all_decimal_digits(digits: Seq<u8>) -> bool {
    forall|i: int| 0 <= i < digits.len() ==> is_decimal_digit(#[trigger] digits[i])
}

/// The number that a run of decimal digits denotes.
pub open spec fn decimal_value(digits: Seq<u8>) -> nat
    decreases digits.len(),
{
    if digits.len() == 0 {
        0
    } else {
        10 * decimal_value(digits.drop_last()) + (digits.last() - 0x30) as nat
    }
}

/// The text without the `+` that may stand before the digits.
pub open spec fn unsigned_part(text: Seq<u8>) -> Seq<u8> {
    if text.len() > 0 && text[0] == 0x2bu8 {
        text.subrange(1, text.len() as int)
    } else {
        text
    }
}

/// Whether `k` is the place of the first character that is no decimal digit.
pub open spec fn is_first_non_digit(digits: Seq<u8>, k: int) -> bool {
    &&& 0 <= k < digits.len()
    &&& !is_decimal_digit(digits[k])
    &&& forall|j: int| 0 <= j < k ==> is_decimal_digit(#[trigger] digits[j])
}

/// The unsigned 128-bit number that a decimal numeral denotes: an optional `+`,
/// then one digit or more. Reading from the left, the first fault decides the
/// error: digits that already exceed `u128::MAX` before a character that is no
/// digit give `Overflow`.
pub open spec fn decimal_of_text(text: Seq<u8>) -> Result<nat, DecimalError> {
    let digits = unsigned_part(text);
    if text.len() == 0 {
        Err(DecimalError::Empty)
    } else if digits.len() == 0 {
        Err(DecimalError::InvalidDigit)
    } else if all_decimal_digits(digits) {
        if decimal_value(digits) <= u128::MAX {
            Ok(decimal_value(digits))
        } else {
            Err(DecimalError::Overflow)
        }
    } else {
        let k = choose|k: int| is_first_non_digit(digits, k);
        if decimal_value(digits.take(k)) <= u128::MAX {
            Err(DecimalError::InvalidDigit)
        } else {
            Err(DecimalError::Overflow)
        }
    }
}

/// A longer run of digits denotes no smaller number than its prefix.
pub proof fn lemma_decimal_value_prefix(digits: Seq<u8>, j: int, k: int)
    requires
        0 <= j <= k <= digits.len(),
    ensures
        decimal_value(digits.take(j)) <= decimal_value(digits.take(k)),
    decreases k - j,
{
    if j < k {
        lemma_decimal_value_prefix(digits, j, k - 1);
        assert(digits.take(k).drop_last() =~= digits.take(k - 1));
    }
}

/// Reads an unsigned 128-bit decimal numeral.
pub fn parse_decimal(text: &[u8]) -> (parsed: Result<u128, DecimalError>)
    ensures
        match decimal_of_text(text@) {
            Ok(value) => parsed == Ok::<u128, DecimalError>(value as u128),
            Err(fault) => parsed == Err::<u128, DecimalError>(fault),
        },
{
    if text.len() == 0 {
        return Err(DecimalError::Empty);
    }
    let start: usize = if text[0] == 0x2bu8 {
        1
    } else {
        0
    };
    let digits = slice_subrange(text, start, text.len());
    assert(digits@ == unsigned_part(text@));
    if digits.len() == 0 {
        return Err(DecimalError::InvalidDigit);
    }
    let mut value: u128 = 0;
    let mut i: usize = 0;
    while i < digits.len()
        invariant
            i <= digits@.len(),
            text@.len() > 0,
            digits@.len() > 0,
            digits@ == unsigned_part(text@),
            value == decimal_value(digits@.take(i as int)),
            forall|j: int| 0 <= j < i ==> is_decimal_digit(#[trigger] digits@[j]),
        decreases digits@.len() - i,
    {
        let c = digits[i];
        if c < 0x30 || c > 0x39 {
            proof {
                assert(is_first_non_digit(digits@, i as int));
                let k = choose|k: int| is_first_non_digit(digits@, k);
                assert(k == i) by {
                    if k < i {
                        assert(is_decimal_digit(digits@[k]));
                    }
                    if i < k {
                        assert(is_decimal_digit(digits@[i as int]));
                    }
                }
            }
            return Err(DecimalError::InvalidDigit);
        }
        proof {
            assert(digits@.take(i + 1).drop_last() =~= digits@.take(i as int));
            assert(decimal_value(digits@.take(i + 1)) == 10 * value + (c - 0x30));
        }
        let next = match value.checked_mul(10) {
            Some(scaled) => scaled.checked_add((c - 0x30) as u128),
            None => None,
        };
        match next {
            Some(sum) => {
                value = sum;
            },
            None => {
                proof {
                    lemma_decimal_overflow(digits@, i as int);
                }
                return Err(DecimalError::Overflow);
            },
        }
        i += 1;
    }
    assert(digits@.take(i as int) =~= digits@);
    Ok(value)
}

/// Digits whose first `i + 1` denote more than `u128::MAX` are an overflow,
/// whatever follows them.
proof fn lemma_decimal_overflow(digits: Seq<u8>, i: int)
    requires
        0 <= i < digits.len(),
        forall|j: int| 0 <= j <= i ==> is_decimal_digit(#[trigger] digits[j]),
        decimal_value(digits.take(i + 1)) > u128::MAX,
    ensures
        all_decimal_digits(digits) ==> decimal_value(digits) > u128::MAX,
        !all_decimal_digits(digits) ==> decimal_value(
            digits.take(choose|k: int| is_first_non_digit(digits, k)),
        ) > u128::MAX,
{
    if all_decimal_digits(digits) {
        lemma_decimal_value_prefix(digits, i + 1, digits.len() as int);
        assert(digits.take(digits.len() as int) =~= digits);
    } else {
        let bad = choose|b: int| 0 <= b < digits.len() && !is_decimal_digit(digits[b]);
        lemma_first_non_digit_exists(digits, bad);
        let k = choose|k: int| is_first_non_digit(digits, k);
        if k <= i {
            assert(is_decimal_digit(digits[k]));
        }
        lemma_decimal_value_prefix(digits, i + 1, k);
    }
}

/// Before a character that is no digit stands a first one.
proof fn lemma_first_non_digit_exists(digits: Seq<u8>, bad: int)
    requires
        0 <= bad < digits.len(),
        !is_decimal_digit(digits[bad]),
    ensures
        exists|k: int| is_first_non_digit(digits, k),
    decreases bad,
{
    if forall|j: int| 0 <= j < bad ==> is_decimal_digit(#[trigger] digits[j]) {
        assert(is_first_non_digit(digits, bad));
    } else {
        let earlier = choose|j: int| 0 <= j < bad && !is_decimal_digit(#[trigger] digits[j]);
        lemma_first_non_digit_exists(digits, earlier);
    }
}

/// 256 to the power `n`.
pub open spec fn pow256(n: nat) -> nat
    decreases n,
{
    if n == 0 {
        1
    } else {
        256 * pow256((n - 1) as nat)
    }
}

/// The 32 bytes of `value`, the most significant first.
pub open spec fn big_endian(value: nat) -> Seq<u8> {
    Seq::new(FIELD_BYTES as nat, |i: int| ((value / pow256((31 - i) as nat)) % 256) as u8)
}

proof fn lemma_pow256_positive(n: nat)
    ensures
        pow256(n) > 0,
    decreases n,
{
    if n > 0 {
        lemma_pow256_positive((n - 1) as nat);
    }
}

/// Writes a number as a field element.
pub fn field_of_u128(value: u128) -> (field: [u8; 32])
    ensures
        field@ == big_endian(value as nat),
{
    let mut field = [0u8; 32];
    let mut rest = value;
    let mut k: usize = 0;
    assert(pow256(0) == 1);
    while k < FIELD_BYTES
        invariant
            k <= FIELD_BYTES,
            rest == value as nat / pow256(k as nat),
            forall|i: int| FIELD_BYTES - k <= i < FIELD_BYTES ==> field@[i] == big_endian(value as nat)[i],
        decreases FIELD_BYTES - k,
    {
        proof {
            lemma_pow256_positive(k as nat);
            lemma_div_denominator(value as int, pow256(k as nat) as int, 256);
        }
        field[FIELD_BYTES - 1 - k] = (rest % 256) as u8;
        rest = rest / 256;
        k += 1;
    }
    assert(field@ =~= big_endian(value as nat));
    field
}

/// Whether the text begins with `0x`.
pub open spec fn has_hex_prefix(text: Seq<u8>) -> bool {
    text.len() >= 2 && text[0] == 0x30u8 && text[1] == 0x78u8
}

/// The field element that a text denotes: hexadecimal digits after `0x`, or
/// else a decimal numeral.
pub open spec fn field_of_text(text: Seq<u8>) -> Result<Seq<u8>, FieldFault> {
    if has_hex_prefix(text) {
        field_of_hex(text.subrange(2, text.len() as int))
    } else {
        match decimal_of_text(text) {
            Ok(value) => Ok(big_endian(value)),
            Err(fault) => Err(FieldFault::Decimal(fault)),
        }
    }
}

/// Whether `parsed` is what reading `text` as a field element must give.
pub open spec fn parsed_as_field(text: Seq<u8>, parsed: Result<[u8; 32], Error>) -> bool {
    match field_of_text(text) {
        Ok(bytes) => parsed matches Ok(field) && field@ == bytes,
        Err(FieldFault::Hex) => parsed matches Err(Error::FieldHex(_)),
        Err(FieldFault::TooLong) => parsed matches Err(Error::FieldTooLong),
        Err(FieldFault::Decimal(fault)) => parsed matches Err(Error::FieldDecimal(f)) && f == fault,
    }
}

/// Reads a textual witness value as a field element.
pub fn parse_field(s: &str) -> (parsed: Result<[u8; 32], Error>)
    ensures
        parsed_as_field(s.spec_bytes(), parsed),
{
    let text = s.as_bytes();
    if text.len() >= 2 && text[0] == 0x30u8 && text[1] == 0x78u8 {
        parse_hex_digits(slice_subrange(text, 2, text.len()))
    } else {
        match parse_decimal(text) {
            Ok(value) => Ok(field_of_u128(value)),
            Err(fault) => Err(Error::FieldDecimal(fault)),
        }
    }
}

/// The lower-case hexadecimal digit for a number below 16.
pub open spec fn hex_digit_of(nibble: int) -> u8 {
    if nibble < 10 {
        (0x30 + nibble) as u8
    } else {
        (0x61 + nibble - 10) as u8
    }
}

/// The lower-case hexadecimal text of `bytes`, two digits for each.
pub open spec fn hex_text(bytes: Seq<u8>) -> Seq<u8> {
    Seq::new(
        2 * bytes.len(),
        |i: int|
            hex_digit_of(
                if i % 2 == 0 {
                    bytes[i / 2] as int / 16
                } else {
                    bytes[i / 2] as int % 16
                },
            ),
    )
}

/// Decoding the hexadecimal text of any bytes gives the bytes back.
pub proof fn lemma_hex_text_decodes(bytes: Seq<u8>)
    ensures
        hex_decoding(hex_text(bytes)) == Some(bytes),
{
    let digits = hex_text(bytes);
    assert(all_hex_digits(digits));
    assert forall|i: int| 0 <= i < bytes.len() implies hex_bytes(digits)[i] == bytes[i] by {
        assert(digits[2 * i] == hex_digit_of(bytes[i] as int / 16));
        assert(digits[2 * i + 1] == hex_digit_of(bytes[i] as int % 16));
    }
    assert(hex_bytes(digits) =~= bytes);
}

/// A value of at most 32 bytes, written as `0x` and its hexadecimal text, reads
/// back as the same bytes at the right end of the field element.
pub proof fn lemma_parse_field_round_trip(value: Seq<u8>)
    requires
        value.len() <= FIELD_BYTES,
    ensures
        field_of_text(seq![0x30u8, 0x78u8] + hex_text(value)) == Ok::<Seq<u8>, FieldFault>(
            right_aligned(value),
        ),
        value.len() == FIELD_BYTES ==> right_aligned(value) == value,
{
    let text = seq![0x30u8, 0x78u8] + hex_text(value);
    assert(text.subrange(2, text.len() as int) =~= hex_text(value));
    lemma_hex_text_decodes(value);
    assert(right_aligned(value).len() == FIELD_BYTES);
    if value.len() == FIELD_BYTES {
        assert(right_aligned(value) =~= value);
    }
}

/// The upper-case hexadecimal digit for a number below 16.
pub open spec fn upper_hex_digit_of(nibble: int) -> u8 {
    if nibble < 10 {
        (0x30 + nibble) as u8
    } else {
        (0x41 + nibble - 10) as u8
    }
}

/// The upper-case hexadecimal text of `bytes`, two digits for each.
pub open spec fn upper_hex_text(bytes: Seq<u8>) -> Seq<u8> {
    Seq::new(
        2 * bytes.len(),
        |i: int|
            upper_hex_digit_of(
                if i % 2 == 0 {
                    bytes[i / 2] as int / 16
                } else {
                    bytes[i / 2] as int % 16
                },
            ),
    )
}

/// The round trip holds for upper-case digits as well.
pub proof fn lemma_parse_field_round_trip_upper(value: Seq<u8>)
    requires
        value.len() <= FIELD_BYTES,
    ensures
        field_of_text(seq![0x30u8, 0x78u8] + upper_hex_text(value)) == Ok::<Seq<u8>, FieldFault>(
            right_aligned(value),
        ),
{
    let digits = upper_hex_text(value);
    let text = seq![0x30u8, 0x78u8] + digits;
    assert(text.subrange(2, text.len() as int) =~= digits);
    assert(all_hex_digits(digits));
    assert forall|i: int| 0 <= i < value.len() implies hex_bytes(digits)[i] == value[i] by {
        assert(digits[2 * i] == upper_hex_digit_of(value[i] as int / 16));
        assert(digits[2 * i + 1] == upper_hex_digit_of(value[i] as int % 16));
    }
    assert(hex_bytes(digits) =~= value);
}

proof fn lemma_pow256_grows(m: nat, n: nat)
    requires
        m <= n,
    ensures
        pow256(m) <= pow256(n),
    decreases n - m,
{
    if m < n {
        lemma_pow256_grows(m, (n - 1) as nat);
    }
}

/// A decimal numeral fills the low half of the field element only: the first
/// 16 bytes of an unsigned 128-bit number are zero.
pub proof fn lemma_high_half_is_zero(value: nat)
    requires
        value <= u128::MAX,
    ensures
        forall|i: int| 0 <= i < 16 ==> big_endian(value)[i] == 0u8,
{
    assert(pow256(16) == 0x1_0000_0000_0000_0000_0000_0000_0000_0000) by {
        reveal_with_fuel(pow256, 17);
    }
    assert forall|i: int| 0 <= i < 16 implies big_endian(value)[i] == 0u8 by {
        let d = pow256((31 - i) as nat);
        lemma_pow256_grows(16, (31 - i) as nat);
        assert(value / d == 0) by (nonlinear_arith)
            requires
                0 <= value < d,
        ;
    }
}

} // verus!
