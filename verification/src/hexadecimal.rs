//! Bytes written as hexadecimal digits.
use vstd::prelude::*;

use bitcoin::hashes::hex::FromHex;
use bitcoin::hashes::hex::ToHex;

verus! {

/// The lower-case digit of a value below sixteen.
pub open spec fn hex_digit(value: int) -> char {
    if value < 10 {
        ('0' as int + value) as char
    } else {
        ('a' as int + value - 10) as char
    }
}

/// Whether a character is a hexadecimal digit, of either case.
pub open spec fn is_hex_digit(c: char) -> bool {
    ||| '0' <= c <= '9'
    ||| 'a' <= c <= 'f'
    ||| 'A' <= c <= 'F'
}

/// The value of a hexadecimal digit.
pub open spec fn hex_value(c: char) -> int {
    if '0' <= c <= '9' {
        c as int - '0' as int
    } else if 'a' <= c <= 'f' {
        c as int - 'a' as int + 10
    } else {
        c as int - 'A' as int + 10
    }
}

/// A hexadecimal digit in lower case.
pub open spec fn lower_digit(c: char) -> char {
    if 'A' <= c <= 'F' {
        (c as int + 32) as char
    } else {
        c
    }
}

/// Two lower-case digits for each byte, the high half first.
pub open spec fn hex_of(bytes: Seq<u8>) -> Seq<char> {
    Seq::new(
        2 * bytes.len(),
        |i: int|
            hex_digit(
                if i % 2 == 0 {
                    bytes[i / 2] as int / 16
                } else {
                    bytes[i / 2] as int % 16
                },
            ),
    )
}

/// Whether a text is an even number of hexadecimal digits.
pub open spec fn is_hex(text: Seq<char>) -> bool {
    &&& text.len() % 2 == 0
    &&& forall|i: int| 0 <= i < text.len() ==> is_hex_digit(#[trigger] text[i])
}

/// The bytes that a text of hexadecimal digits writes.
pub open spec fn bytes_of(text: Seq<char>) -> Seq<u8> {
    Seq::new(
        text.len() / 2,
        |i: int| (16 * hex_value(text[2 * i]) + hex_value(text[2 * i + 1])) as u8,
    )
}

/// A text of hexadecimal digits in lower case.
pub open spec fn lower_hex(text: Seq<char>) -> Seq<char> {
    text.map_values(|c: char| lower_digit(c))
}

/// The error of `bitcoin::hashes::hex`.
#[verifier::external_type_specification]
#[verifier::external_body]
pub struct ExHexError(bitcoin::hashes::hex::Error);

/// `ToHex::to_hex` of `bitcoin::hashes`, on bytes: each byte as two lower-case
/// hexadecimal digits, in order.
#[verifier::external_body]
pub(crate) fn to_hex(bytes: &[u8]) -> (r: String)
    ensures
        r@ == hex_of(bytes@),
{
    bytes.to_hex()
}

/// `FromHex::from_hex` of `bitcoin::hashes`, for `Vec<u8>`: accepts an even number of
/// hexadecimal digits of either case, and makes one byte of every two.
#[verifier::external_body]
pub(crate) fn from_hex(text: &str) -> (r: Result<Vec<u8>, bitcoin::hashes::hex::Error>)
    ensures
        match r {
            Ok(bytes) => is_hex(text@) && bytes@ == bytes_of(text@),
            Err(_) => !is_hex(text@),
        },
{
    Vec::<u8>::from_hex(text)
}

/// Decoding digits and writing the bytes again gives the digits in lower case.
pub proof fn law_hex_of_bytes_of(text: Seq<char>)
    requires
        is_hex(text),
    ensures
        hex_of(bytes_of(text)) == lower_hex(text),
{
    let bytes = bytes_of(text);
    assert forall|i: int| 0 <= i < text.len() implies hex_of(bytes)[i] == lower_hex(text)[i] by {
        let k = i / 2;
        assert(is_hex_digit(text[2 * k]) && is_hex_digit(text[2 * k + 1]));
        assert(i == 2 * k || i == 2 * k + 1);
        let v = 16 * hex_value(text[2 * k]) + hex_value(text[2 * k + 1]);
        assert(0 <= v < 256);
        assert(bytes[k] as int == v);
    }
    assert(hex_of(bytes) =~= lower_hex(text));
}

/// Writing bytes as digits and decoding the digits gives the bytes again.
pub proof fn law_bytes_of_hex_of(bytes: Seq<u8>)
    ensures
        is_hex(hex_of(bytes)),
        bytes_of(hex_of(bytes)) == bytes,
{
    let text = hex_of(bytes);
    assert forall|i: int| 0 <= i < text.len() implies is_hex_digit(#[trigger] text[i]) by {
        assert(0 <= bytes[i / 2] as int / 16 < 16);
    }
    assert forall|k: int| 0 <= k < bytes.len() implies bytes_of(text)[k] == bytes[k] by {
        let b = bytes[k] as int;
        assert((2 * k) / 2 == k && (2 * k + 1) / 2 == k);
        assert((2 * k) % 2 == 0 && (2 * k + 1) % 2 == 1);
        assert(text[2 * k] == hex_digit(b / 16));
        assert(text[2 * k + 1] == hex_digit(b % 16));
        assert(0 <= b / 16 < 16 && 0 <= b % 16 < 16);
        assert(hex_value(hex_digit(b / 16)) == b / 16);
        assert(hex_value(hex_digit(b % 16)) == b % 16);
        assert(16 * (b / 16) + b % 16 == b);
    }
    assert(bytes_of(text) =~= bytes);
}

/// Bytes one behind the other are written by their digits one behind the other.
pub proof fn law_hex_of_parts(a: Seq<u8>, b: Seq<u8>)
    ensures
        hex_of(a + b) == hex_of(a) + hex_of(b),
        hex_of(a).len() == 2 * a.len(),
{
    assert forall|i: int| 0 <= i < 2 * (a.len() + b.len()) implies hex_of(a + b)[i] == (hex_of(a)
        + hex_of(b))[i] by {
        if i >= 2 * a.len() {
            let j = i - 2 * a.len();
            assert(i / 2 == j / 2 + a.len() && i % 2 == j % 2);
        }
    }
    assert(hex_of(a + b) =~= hex_of(a) + hex_of(b));
}

/// Texts of digits one behind the other are a text of digits, and write their bytes one behind the
/// other, whatever their lengths.
pub proof fn law_bytes_of_parts(a: Seq<char>, b: Seq<char>)
    requires
        is_hex(a),
        is_hex(b),
    ensures
        is_hex(a + b),
        bytes_of(a + b) == bytes_of(a) + bytes_of(b),
        2 * bytes_of(a).len() == a.len(),
{
    let n = a.len() as int / 2;
    assert(a.len() == 2 * n);
    assert forall|i: int| 0 <= i < (a + b).len() implies is_hex_digit(#[trigger] (a + b)[i]) by {
        if i < a.len() {
            assert(is_hex_digit(a[i]));
        } else {
            assert(is_hex_digit(b[i - a.len()]));
        }
    }
    assert forall|k: int| 0 <= k < (a + b).len() / 2 implies bytes_of(a + b)[k] == (bytes_of(a)
        + bytes_of(b))[k] by {
        if k >= n {
            assert((a + b)[2 * k] == b[2 * (k - n)]);
            assert((a + b)[2 * k + 1] == b[2 * (k - n) + 1]);
        }
    }
    assert(bytes_of(a + b) =~= bytes_of(a) + bytes_of(b));
}

} // verus!
