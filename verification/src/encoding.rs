//! Hex and base58 encodings of byte strings.

use vstd::prelude::*;
use crate::ids::hex_lower;

verus! {

/// hex's error type.
#[verifier::external_type_specification]
#[verifier::external_body]
pub struct ExFromHexError(hex::FromHexError);

pub open spec fn is_hex_char(c: char) -> bool {
    ('0' <= c && c <= '9') || ('a' <= c && c <= 'f') || ('A' <= c && c <= 'F')
}

/// The value of a hex digit of either case.
pub open spec fn hex_char_value(c: char) -> nat {
    if '0' <= c && c <= '9' {
        ((c as int) - ('0' as int)) as nat
    } else if 'a' <= c && c <= 'f' {
        ((c as int) - ('a' as int) + 10) as nat
    } else {
        ((c as int) - ('A' as int) + 10) as nat
    }
}

/// What hex's `decode` makes of a text: an even number of hex digits of
/// either case decode pairwise, high digit first; anything else is refused.
pub open spec fn hex_decode_text(s: Seq<char>) -> Option<Seq<u8>> {
    if s.len() % 2 == 0 && forall|i: int| 0 <= i < s.len() ==> is_hex_char(#[trigger] s[i]) {
        Some(
            Seq::new(
                s.len() / 2,
                |i: int| (hex_char_value(s[2 * i]) * 16 + hex_char_value(s[2 * i + 1])) as u8,
            ),
        )
    } else {
        None
    }
}

/// What hex's `encode` writes: two lowercase hex digits per byte, high digit
/// first.
pub open spec fn hex_encode_text(b: Seq<u8>) -> Seq<char> {
    Seq::new(
        2 * b.len(),
        |i: int|
            if i % 2 == 0 {
                hex_lower((b[i / 2] / 16) as nat)
            } else {
                hex_lower((b[i / 2] % 16) as nat)
            },
    )
}

/// hex's `decode` on the UTF-8 bytes of `s`. A text with a character that is
/// not an ASCII hex digit is refused whatever its byte length, so the outcome
/// is a function of the characters.
#[verifier::external_body]
pub(crate) fn hex_decode(s: &str) -> (r: Result<Vec<u8>, hex::FromHexError>)
    ensures
        r is Ok <==> hex_decode_text(s@) is Some,
        r matches Ok(v) ==> Some(v@) == hex_decode_text(s@),
{
    hex::decode(s)
}

/// hex's `encode`.
#[verifier::external_body]
pub(crate) fn hex_encode(b: &[u8]) -> (r: String)
    ensures
        r@ == hex_encode_text(b@),
{
    hex::encode(b)
}

/// Encoding bytes as hex and decoding the text gives the bytes back.
pub proof fn lemma_hex_round_trip(b: Seq<u8>)
    ensures
        hex_decode_text(hex_encode_text(b)) == Some(b),
{
    let t = hex_encode_text(b);
    assert forall|i: int| 0 <= i < t.len() implies is_hex_char(#[trigger] t[i]) by {
        let x = b[i / 2];
        assert(x / 16 < 16 && x % 16 < 16);
    }
    let d = hex_decode_text(t)->0;
    assert forall|i: int| 0 <= i < b.len() implies d[i] == b[i] by {
        let x = b[i];
        assert((2 * i) / 2 == i && (2 * i + 1) / 2 == i);
        assert((2 * i) % 2 == 0 && (2 * i + 1) % 2 == 1);
        assert(hex_char_value(hex_lower((x / 16) as nat)) == x / 16);
        assert(hex_char_value(hex_lower((x % 16) as nat)) == x % 16);
        assert((x / 16) * 16 + x % 16 == x);
    }
    assert(d =~= b);
}

/// The Bitcoin base58 alphabet:
/// `123456789ABCDEFGHJKLMNPQRSTUVWXYZabcdefghijkmnopqrstuvwxyz`.
pub open spec fn base58_char(d: nat) -> char {
    if d < 9 {
        (('1' as int) + d) as char
    } else if d < 17 {
        (('A' as int) + d - 9) as char
    } else if d < 22 {
        (('J' as int) + d - 17) as char
    } else if d < 33 {
        (('P' as int) + d - 22) as char
    } else if d < 44 {
        (('a' as int) + d - 33) as char
    } else {
        (('m' as int) + d - 44) as char
    }
}

/// The bytes read as one big-endian number.
pub open spec fn be_value(b: Seq<u8>) -> nat
    decreases b.len(),
{
    if b.len() == 0 {
        0
    } else {
        be_value(b.drop_last()) * 256 + (b.last() as nat)
    }
}

/// The number of zero bytes at the front.
pub open spec fn leading_zero_bytes(b: Seq<u8>) -> nat
    decreases b.len(),
{
    if b.len() == 0 {
        0
    } else if b[0] == 0 {
        1 + leading_zero_bytes(b.drop_first())
    } else {
        0
    }
}

/// Base58 digits of a number, most significant first, none for zero.
pub open spec fn base58_digits(n: nat) -> Seq<char>
    decreases n,
{
    if n == 0 {
        seq![]
    } else {
        base58_digits(n / 58).push(base58_char(n % 58))
    }
}

/// What bs58's `encode(..).into_string()` writes: a `1` per leading zero
/// byte, then the base58 digits of the number the bytes denote.
pub open spec fn base58_text(b: Seq<u8>) -> Seq<char> {
    Seq::new(leading_zero_bytes(b), |i: int| '1') + base58_digits(be_value(b))
}

/// Whether a character is an ASCII letter or digit.
pub open spec fn is_alphanumeric(c: char) -> bool {
    ('0' <= c && c <= '9') || ('a' <= c && c <= 'z') || ('A' <= c && c <= 'Z')
}

/// bs58's `encode(b).into_string()` with the Bitcoin alphabet.
#[verifier::external_body]
pub(crate) fn base58_encode(b: &[u8]) -> (r: String)
    ensures
        r@ == base58_text(b@),
{
    bs58::encode(b).into_string()
}

proof fn lemma_base58_digits_alphanumeric(n: nat)
    ensures
        forall|i: int|
            0 <= i < base58_digits(n).len() ==> is_alphanumeric(#[trigger] base58_digits(n)[i]),
    decreases n,
{
    if n > 0 {
        lemma_base58_digits_alphanumeric(n / 58);
        let s = base58_digits(n);
        assert forall|i: int| 0 <= i < s.len() implies is_alphanumeric(#[trigger] s[i]) by {
            if i < s.len() - 1 {
                assert(s[i] == base58_digits(n / 58)[i]);
            }
        }
    }
}

/// Base58 text is made of ASCII letters and digits only.
pub proof fn lemma_base58_text_alphanumeric(b: Seq<u8>)
    ensures
        forall|i: int|
            0 <= i < base58_text(b).len() ==> is_alphanumeric(#[trigger] base58_text(b)[i]),
{
    lemma_base58_digits_alphanumeric(be_value(b));
    let z = Seq::new(leading_zero_bytes(b), |i: int| '1');
    let s = base58_text(b);
    assert forall|i: int| 0 <= i < s.len() implies is_alphanumeric(#[trigger] s[i]) by {
        if i >= z.len() {
            assert(s[i] == base58_digits(be_value(b))[i - z.len()]);
        }
    }
}

} // verus!
