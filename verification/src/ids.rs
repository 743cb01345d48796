//! Version-4 UUIDs, held as their 128-bit value.

use vstd::prelude::*;
use crate::text::digit_char;

verus! {

/// The version nibble is 4 and the variant bits are `10` (RFC 4122).
pub open spec fn is_uuid_v4(id: u128) -> bool {
    id & 0xF000_C000_0000_0000_0000u128 == 0x4000_8000_0000_0000_0000u128
}

/// A lowercase hex digit for a value below sixteen.
pub open spec fn hex_lower(d: nat) -> char {
    if d < 10 {
        digit_char(d)
    } else {
        (('a' as int) + d - 10) as char
    }
}

/// The `i`-th of the 32 nibbles of `id`, most significant first.
pub open spec fn uuid_nibble(id: u128, i: int) -> nat {
    ((id >> ((4 * (31 - i)) as u128)) & 0xFu128) as nat
}

/// The 32 lowercase hex digits of `id`.
pub open spec fn uuid_simple(id: u128) -> Seq<char> {
    Seq::new(32, |i: int| hex_lower(uuid_nibble(id, i)))
}

/// The hyphenated text of a UUID: groups of 8, 4, 4, 4 and 12 digits.
pub open spec fn uuid_text(id: u128) -> Seq<char> {
    let d = uuid_simple(id);
    d.subrange(0, 8) + seq!['-'] + d.subrange(8, 12) + seq!['-'] + d.subrange(12, 16) + seq!['-']
        + d.subrange(16, 20) + seq!['-'] + d.subrange(20, 32)
}

/// uuid's `Uuid::new_v4()`: random bits with the version and variant fields
/// set, so every outcome is a version-4 UUID; which one comes back is chance.
#[verifier::external_body]
pub(crate) fn new_uuid_v4() -> (id: u128)
    ensures
        is_uuid_v4(id),
{
    uuid::Uuid::new_v4().as_u128()
}

/// uuid's `Display` of `Uuid::from_u128(id)`: the lowercase hyphenated form.
#[verifier::external_body]
pub(crate) fn uuid_to_text(id: u128) -> (r: String)
    ensures
        r@ == uuid_text(id),
{
    uuid::Uuid::from_u128(id).to_string()
}

/// No UUID text holds a colon.
pub proof fn lemma_uuid_text_has_no_colon(id: u128)
    ensures
        forall|i: int| 0 <= i < uuid_text(id).len() ==> uuid_text(id)[i] != ':',
        uuid_text(id).len() == 36,
{
    assert forall|x: u128| (x & 0xFu128) < 16 by {
        assert((x & 0xFu128) < 16) by (bit_vector);
    }
    let t = uuid_text(id);
    assert forall|i: int| 0 <= i < t.len() implies t[i] != ':' by {
        let d = uuid_simple(id);
        assert forall|k: int| 0 <= k < 32 implies d[k] != ':' by {
            assert(uuid_nibble(id, k) < 16);
        }
    }
}

} // verus!
