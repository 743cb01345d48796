//! JSON text: string literals and the compact re-encoding of a document.

use vstd::prelude::*;
use crate::ids::hex_lower;
use crate::encoding::is_alphanumeric;

verus! {

/// How serde_json writes one character inside a string literal: `"` and `\`
/// and the control characters below U+0020 are escaped (the short forms
/// `\b \t \n \f \r` where they exist, `\u00XX` with lowercase hex otherwise);
/// every other character is written as it is.
pub open spec fn json_escape_char(c: char) -> Seq<char> {
    if c == '"' {
        seq!['\\', '"']
    } else if c == '\\' {
        seq!['\\', '\\']
    } else if c == '\u{8}' {
        seq!['\\', 'b']
    } else if c == '\t' {
        seq!['\\', 't']
    } else if c == '\n' {
        seq!['\\', 'n']
    } else if c == '\u{c}' {
        seq!['\\', 'f']
    } else if c == '\r' {
        seq!['\\', 'r']
    } else if (c as int) < 0x20 {
        seq!['\\', 'u', '0', '0', hex_lower(((c as int) / 16) as nat), hex_lower(((c as int) % 16) as nat)]
    } else {
        seq![c]
    }
}

pub open spec fn json_escape(s: Seq<char>) -> Seq<char>
    decreases s.len(),
{
    if s.len() == 0 {
        seq![]
    } else {
        json_escape(s.drop_last()) + json_escape_char(s.last())
    }
}

/// The JSON string literal for `s`, quotes included.
pub open spec fn json_string_text(s: Seq<char>) -> Seq<char> {
    seq!['"'] + json_escape(s) + seq!['"']
}

/// The compact JSON text that serde_json writes for the document that `text`
/// holds (object keys in sorted order), or `None` where `text` is not JSON.
pub uninterp spec fn json_reencoded(text: Seq<char>) -> Option<Seq<char>>;

/// serde_json's `to_string` of a `&str`: the quoted, escaped literal.
/// Serialising a string does not fail, so the error arm is never taken.
#[verifier::external_body]
pub(crate) fn json_string(s: &str) -> (r: String)
    ensures
        r@ == json_string_text(s@),
{
    match serde_json::to_string(s) {
        Ok(t) => t,
        Err(_) => String::new(),
    }
}

/// serde_json's `from_str::<Value>` on `text`, then that value's compact
/// `Display`; `None` where parsing fails. Which documents parse and how they
/// are written back is serde_json's and is left to the name `json_reencoded`.
#[verifier::external_body]
pub(crate) fn json_reencode(text: &str) -> (r: Option<String>)
    ensures
        r is Some <==> json_reencoded(text@) is Some,
        r matches Some(t) ==> Some(t@) == json_reencoded(text@),
{
    match serde_json::from_str::<serde_json::Value>(text) {
        Ok(v) => Some(v.to_string()),
        Err(_) => None,
    }
}

/// Letters and digits need no escaping.
pub proof fn lemma_json_escape_alphanumeric(s: Seq<char>)
    requires
        forall|i: int| 0 <= i < s.len() ==> is_alphanumeric(#[trigger] s[i]),
    ensures
        json_escape(s) == s,
    decreases s.len(),
{
    if s.len() > 0 {
        lemma_json_escape_alphanumeric(s.drop_last());
        assert(s.drop_last().push(s.last()) =~= s);
        assert(json_escape_char(s.last()) =~= seq![s.last()]);
    }
}

} // verus!
