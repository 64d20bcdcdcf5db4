//! Salted SHA-256 password hashing and the random values a new account gets.

use crate::hex::{encode_hex, hex_upper, is_upper_hex_char, lemma_hex_upper_shape};
use sha2::Digest;
use vstd::prelude::*;
use vstd::string::*;
use vstd::utf8::encode_utf8;

verus! {

/// The SHA-256 digest of a byte string, as `sha2` computes it.
pub uninterp spec fn sha256_digest(data: Seq<u8>) -> Seq<u8>;

/// Hashes `data` with `sha2::Sha256::digest`. The digest is the named
/// function of the input and is 32 bytes long (the output size of SHA-256).
#[verifier::external_body]
fn sha256(data: &[u8]) -> (digest: Vec<u8>)
    ensures
        digest@ == sha256_digest(data@),
        digest@.len() == 32,
{
    sha2::Sha256::digest(data).to_vec()
}

/// The stored form of a password: the upper-case hex encoding of the SHA-256
/// digest of the UTF-8 bytes of the salt followed by the password.
pub open spec fn password_hash(password: Seq<char>, salt: Seq<char>) -> Seq<char> {
    hex_upper(sha256_digest(encode_utf8(salt + password)))
}

/// Hashes `password` salted with `salt` (salt first): 64 upper-case
/// hexadecimal digits.
pub fn get_hash(password: &str, salt: &str) -> (h: String)
    ensures
        h@ == password_hash(password@, salt@),
        h@ == hex_upper(sha256_digest(encode_utf8(salt@ + password@))),
        h@.len() == 64,
        forall|i: int| 0 <= i < h@.len() ==> is_upper_hex_char(#[trigger] h@[i]),
{
    let mut salted = salt.to_owned();
    salted.append(password);
    let digest = sha256(salted.as_str().as_bytes());
    proof {
        lemma_hex_upper_shape(digest@);
    }
    encode_hex(digest.as_slice())
}

/// A lower-case hexadecimal digit.
pub open spec fn is_lower_hex_char(c: char) -> bool {
    ('0' <= c && c <= '9') || ('a' <= c && c <= 'f')
}

/// The hyphenated lower-case text of a random (version 4, RFC 4122 variant)
/// UUID: 36 characters, hyphens at 8, 13, 18 and 23, a `4` at 14 and one of
/// `8`, `9`, `a`, `b` at 19.
pub open spec fn is_v4_uuid_text(s: Seq<char>) -> bool {
    &&& s.len() == 36
    &&& forall|i: int|
        0 <= i < 36 ==> if i == 8 || i == 13 || i == 18 || i == 23 {
            #[trigger] s[i] == '-'
        } else {
            is_lower_hex_char(s[i])
        }
    &&& s[14] == '4'
    &&& (s[19] == '8' || s[19] == '9' || s[19] == 'a' || s[19] == 'b')
}

/// A fresh user id: `uuid::Uuid::new_v4()` written with its `Display` impl
/// (hyphenated, lower case). Only its shape is stated; its value is random.
#[verifier::external_body]
pub(crate) fn new_user_id() -> (id: String)
    ensures
        is_v4_uuid_text(id@),
{
    uuid::Uuid::new_v4().to_string()
}

/// Sixteen random bytes from `rand::rng()` (`RngCore::fill_bytes`). Only the
/// length is stated; the bytes are random.
#[verifier::external_body]
pub(crate) fn random_salt_bytes() -> (salt: Vec<u8>)
    ensures
        salt@.len() == 16,
{
    let mut bytes = [0u8; 16];
    rand::RngCore::fill_bytes(&mut rand::rng(), &mut bytes);
    bytes.to_vec()
}

/// The stored form of a password hashes the whole salted input: the UTF-8
/// bytes of the salt followed by every character of the password. Two
/// passwords give the same stored form exactly when those SHA-256 digests are
/// equal.
pub proof fn lemma_password_hash_whole_input(p1: Seq<char>, p2: Seq<char>, salt: Seq<char>)
    ensures
        password_hash(p1, salt) == hex_upper(sha256_digest(encode_utf8(salt + p1))),
        (password_hash(p1, salt) == password_hash(p2, salt)) <==> (sha256_digest(encode_utf8(salt + p1))
            == sha256_digest(encode_utf8(salt + p2))),
{
    if password_hash(p1, salt) == password_hash(p2, salt) {
        crate::hex::lemma_hex_upper_injective(
            sha256_digest(encode_utf8(salt + p1)),
            sha256_digest(encode_utf8(salt + p2)),
        );
    }
}

} // verus!
