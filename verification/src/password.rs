//! Argon2 password hashing in the PHC string format.

use vstd::prelude::*;
use crate::encoding::is_alphanumeric;
use argon2::password_hash::{PasswordHasher, PasswordVerifier};

verus! {

/// password-hash's error type.
#[verifier::external_type_specification]
#[verifier::external_body]
pub struct ExPasswordHashError(argon2::password_hash::Error);

/// A character of standard unpadded base64: `[A-Za-z0-9+/]`.
pub open spec fn is_b64_char(c: char) -> bool {
    is_alphanumeric(c) || c == '+' || c == '/'
}

/// What password-hash's `Salt::from_b64` accepts: 4 to 64 characters from
/// `[A-Za-z0-9/+.-]`.
pub open spec fn salt_accepted(s: Seq<char>) -> bool {
    &&& 4 <= s.len() <= 64
    &&& forall|i: int|
        0 <= i < s.len() ==> (is_alphanumeric(#[trigger] s[i]) || s[i] == '/' || s[i] == '+'
            || s[i] == '.' || s[i] == '-')
}

/// Unpadded base64 of 16 bytes in canonical form: 22 base64 characters,
/// the last of which carries two data bits and four zero bits.
pub open spec fn is_canonical_salt16(s: Seq<char>) -> bool {
    &&& s.len() == 22
    &&& forall|i: int| 0 <= i < s.len() ==> is_b64_char(#[trigger] s[i])
    &&& (s[21] == 'A' || s[21] == 'Q' || s[21] == 'g' || s[21] == 'w')
}

/// The PHC string that `Argon2::default()` writes for a salt and an output
/// (Argon2id, version 19, 19456 KiB, 2 passes, 1 lane).
pub open spec fn argon2_default_phc(salt: Seq<char>, output: Seq<char>) -> Seq<char> {
    "$argon2id$v=19$m=19456,t=2,p=1$"@ + salt + "$"@ + output
}

/// Whether `s` is a default Argon2 PHC string for `salt`: the prefix, the
/// salt, and 43 base64 characters of output.
pub open spec fn is_default_phc(s: Seq<char>, salt: Seq<char>) -> bool {
    exists|output: Seq<char>|
        output.len() == 43 && (forall|i: int| 0 <= i < output.len() ==> is_b64_char(#[trigger] output[i]))
            && s == #[trigger] argon2_default_phc(salt, output)
}

/// The password lengths that argon2 accepts for certain: at most
/// `u32::MAX` bytes of UTF-8, which four bytes per character bound.
pub open spec fn password_length_accepted(password: Seq<char>) -> bool {
    4 * password.len() <= 0xFFFF_FFFF
}

/// The PHC string that `Argon2::default()` produces for `password` (its UTF-8
/// bytes) with the given salt, or `None` where hashing fails.
pub uninterp spec fn argon2_phc(password: Seq<char>, salt: Seq<char>) -> Option<Seq<char>>;

/// Whether password-hash's `PasswordHash::new` parses `phc`.
pub uninterp spec fn phc_parses(phc: Seq<char>) -> bool;

/// Whether `Argon2::default().verify_password` accepts `password` against the
/// parsed `phc`.
pub uninterp spec fn password_matches(password: Seq<char>, phc: Seq<char>) -> bool;

/// password-hash's `SaltString::generate(&mut OsRng)`: 16 random bytes in
/// unpadded base64, so always 22 base64 characters in canonical form;
/// which ones is chance.
#[verifier::external_body]
pub(crate) fn generate_salt() -> (s: String)
    ensures
        is_canonical_salt16(s@),
{
    argon2::password_hash::SaltString::generate(&mut argon2::password_hash::rand_core::OsRng).as_str().to_string()
}

/// argon2's `Argon2::default().hash_password(password.as_bytes(), salt)`,
/// written out as its PHC string. The salt is first taken by
/// `Salt::from_b64`, which accepts every salt that `salt_accepted` admits.
/// The hash comes from the parameters, salt and algorithm that the string
/// records, so the string parses again and `verify_password` recomputes the
/// same output for the same password. The string is the default PHC prefix,
/// the salt as given, and the 32-byte output in unpadded base64 (43
/// characters). Hashing fails only for a salt that does not decode to at
/// least 8 bytes (a canonical 16-byte salt does) or a password of more than
/// `u32::MAX` bytes. Which output comes is left to `argon2_phc`.
#[verifier::external_body]
pub(crate) fn argon2_hash(password: &str, salt: &str) -> (r: Result<
    String,
    argon2::password_hash::Error,
>)
    requires
        salt_accepted(salt@),
    ensures
        r is Ok <==> argon2_phc(password@, salt@) is Some,
        r matches Ok(h) ==> Some(h@) == argon2_phc(password@, salt@),
        r matches Ok(h) ==> phc_parses(h@) && password_matches(password@, h@),
        r matches Ok(h) ==> is_default_phc(h@, salt@),
        is_canonical_salt16(salt@) && password_length_accepted(password@) ==> r is Ok,
{
    match argon2::password_hash::Salt::from_b64(salt) {
        Ok(s) => match argon2::Argon2::default().hash_password(password.as_bytes(), s) {
            Ok(h) => Ok(h.to_string()),
            Err(e) => Err(e),
        },
        Err(e) => Err(e),
    }
}

/// password-hash's `PasswordHash::new(phc)`, reduced to whether it succeeds.
#[verifier::external_body]
pub(crate) fn phc_hash_parses(phc: &str) -> (r: bool)
    ensures
        r == phc_parses(phc@),
{
    argon2::password_hash::PasswordHash::new(phc).is_ok()
}

/// argon2's `Argon2::default().verify_password(password.as_bytes(), &hash)`
/// where `hash` is `PasswordHash::new(phc)`, which succeeds under the
/// precondition; reduced to whether verification succeeds.
#[verifier::external_body]
pub(crate) fn argon2_verify(password: &str, phc: &str) -> (r: bool)
    requires
        phc_parses(phc@),
    ensures
        r == password_matches(password@, phc@),
{
    match argon2::password_hash::PasswordHash::new(phc) {
        Ok(h) => argon2::Argon2::default().verify_password(password.as_bytes(), &h).is_ok(),
        Err(_) => false,
    }
}

} // verus!
