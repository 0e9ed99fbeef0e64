//! Fresh row ids and password hashes, both made from random bytes by
//! outside crates. Nothing here is proved: each contract states what the
//! outside function's source shows of every result it can give.

use vstd::prelude::*;

verus! {

/// A lower-case hexadecimal digit.
pub open spec fn is_lower_hex(c: char) -> bool {
    ('0' <= c && c <= '9') || ('a' <= c && c <= 'f')
}

/// `s` is a version-4 UUID written in the hyphenated lower-case form: 36
/// characters, hyphens at 8, 13, 18 and 23, hex digits elsewhere, the version
/// digit `4` at 14 and a variant digit `8`, `9`, `a` or `b` at 19.
pub open spec fn is_uuid_v4_text(s: Seq<char>) -> bool {
    &&& s.len() == 36
    &&& forall|i: int|
        0 <= i < 36 ==> if i == 8 || i == 13 || i == 18 || i == 23 {
            s[i] == '-'
        } else {
            is_lower_hex(#[trigger] s[i])
        }
    &&& s[14] == '4'
    &&& (s[19] == '8' || s[19] == '9' || s[19] == 'a' || s[19] == 'b')
}

/// A character of the bcrypt base-64 alphabet (`./A-Za-z0-9`).
pub open spec fn is_bcrypt_b64(c: char) -> bool {
    c == '.' || c == '/' || ('A' <= c && c <= 'Z') || ('a' <= c && c <= 'z') || ('0' <= c && c
        <= '9')
}

/// `s` is a bcrypt hash in the `2b` format at cost 12: `$2b$12$` followed by
/// 53 characters of the bcrypt base-64 alphabet (salt, then hash).
pub open spec fn is_bcrypt_text(s: Seq<char>) -> bool {
    &&& s.len() == 60
    &&& s[0] == '$' && s[1] == '2' && s[2] == 'b' && s[3] == '$'
    &&& s[4] == '1' && s[5] == '2' && s[6] == '$'
    &&& forall|i: int| 7 <= i < 60 ==> is_bcrypt_b64(#[trigger] s[i])
}

/// The `2b`-format text of the hash that `bcrypt::hash_with_salt` makes of
/// the UTF-8 bytes of `password` at cost 12 with the 16-byte `salt`.
pub uninterp spec fn bcrypt_salted_text(password: Seq<char>, salt: Seq<u8>) -> Seq<char>;

#[verifier::external_type_specification]
#[verifier::external_body]
pub struct ExBcryptError(bcrypt::BcryptError);

/// Calls `uuid::Uuid::new_v4` and writes the id with `Display`, which the
/// crate implements as the hyphenated lower-case form. The contract claims
/// the shape of that text; which id comes out is chance. The outside
/// function panics when the system gives no random bytes.
#[verifier::external_body]
pub(crate) fn new_id() -> (r: String)
    ensures
        is_uuid_v4_text(r@),
{
    uuid::Uuid::new_v4().to_string()
}

/// Calls `bcrypt::hash` with the crate's `DEFAULT_COST` (12), which draws a
/// random 16-byte salt and formats what `hash_with_salt` makes of the
/// password with it. The contract claims the shape of a successful result
/// and that it is the salted hash of `password` for some 16-byte salt;
/// which salt is chance. With cost 12 the crate fails only when the system
/// gives no random bytes; that case is not stated.
#[verifier::external_body]
pub(crate) fn hash_password(password: &String) -> (r: Result<String, bcrypt::BcryptError>)
    ensures
        r is Ok ==> is_bcrypt_text(r->Ok_0@),
        r is Ok ==> exists|salt: Seq<u8>|
            salt.len() == 16 && r->Ok_0@ == #[trigger] bcrypt_salted_text(password@, salt),
{
    bcrypt::hash(password, bcrypt::DEFAULT_COST)
}

} // verus!
