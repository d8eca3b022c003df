//! Password hashing with Argon2 under a fixed salt, and checking a password
//! against a stored hash.

use vstd::prelude::*;
use vstd::utf8::encode_utf8;
use argon2::password_hash::{PasswordHasher, SaltString};
use argon2::Argon2;

verus! {

/// The PHC string of the Argon2 hash (argon2id, default parameters) of the
/// bytes `password` under the B64-encoded salt `salt`; `None` where `salt`
/// is no valid salt string or Argon2 refuses to hash with it.
pub uninterp spec fn argon2_phc_hash(password: Seq<u8>, salt: Seq<char>) -> Option<Seq<char>>;

/// The head of every hash: algorithm `argon2id`, version 19 and the default
/// parameters (19456 KiB of memory, 2 passes, 1 lane), each after a `$`,
/// with the `$` that precedes the salt.
pub open spec fn argon2id_phc_head() -> Seq<char> {
    "$argon2id$v=19$m=19456,t=2,p=1$"@
}

/// Whether `c` is a character of the unpadded B64 alphabet of PHC strings.
pub open spec fn is_b64_char(c: char) -> bool {
    ('A' <= c && c <= 'Z') || ('a' <= c && c <= 'z') || ('0' <= c && c <= '9') || c == '+'
        || c == '/'
}

/// Whether `h` is an Argon2id PHC string made with the default parameters
/// under the salt `salt`: the head, the salt, a `$`, and the 32-byte output
/// as 43 B64 characters.
pub open spec fn is_argon2id_phc(h: Seq<char>, salt: Seq<char>) -> bool {
    let n = (argon2id_phc_head().len() + salt.len() + 1) as int;
    &&& h.len() == n + 43
    &&& h.take(n) == argon2id_phc_head() + salt + seq!['$']
    &&& forall|i: int| n <= i < h.len() ==> is_b64_char(#[trigger] h[i])
}

/// `SaltString::new(salt)`, then `Argon2::default().hash_password(password,
/// &salt)` rendered with `to_string()`; `None` where either call fails. The
/// outcome depends on the two arguments alone. The rendering is the PHC
/// string of `PasswordHash`'s `Display`: `$argon2id`, `$v=19`, the default
/// parameters, the salt as given, and the 32-byte output in B64.
#[verifier::external_body]
#[allow(deprecated)]
fn argon2_hash(password: &[u8], salt: &str) -> (r: Option<String>)
    ensures
        match r {
            Some(h) => argon2_phc_hash(password@, salt@) == Some(h@) && is_argon2id_phc(h@, salt@),
            None => argon2_phc_hash(password@, salt@) is None,
        },
{
    let salt = SaltString::new(salt).ok()?;
    Argon2::default().hash_password(password, &salt).ok().map(|h| h.to_string())
}

/// Whether `password` can be hashed under `salt`.
pub open spec fn hashable(password: Seq<char>, salt: Seq<char>) -> bool {
    argon2_phc_hash(encode_utf8(password), salt) is Some
}

/// The stored form of `password` under `salt`.
pub open spec fn password_hash(password: Seq<char>, salt: Seq<char>) -> Seq<char> {
    argon2_phc_hash(encode_utf8(password), salt)->0
}

/// Whether `password` matches the stored hash `stored` (`None`: no hash
/// could be read).
pub open spec fn password_matches(password: Seq<char>, salt: Seq<char>, stored: Option<Seq<char>>) -> bool {
    match stored {
        Some(h) => h == password_hash(password, salt),
        None => false,
    }
}

/// The stored form of `pw`: its Argon2 hash under `salt` (which the service
/// reads from `INIT_PW_SALT`), as a PHC string.
pub fn hash_pw(pw: String, salt: &str) -> (h: String)
    requires
        hashable(pw@, salt@),
    ensures
        h@ == password_hash(pw@, salt@),
        argon2_phc_hash(encode_utf8(pw@), salt@) == Some(h@),
        is_argon2id_phc(h@, salt@),
{
    match argon2_hash(pw.as_str().as_bytes(), salt) {
        Some(h) => h,
        None => {
            assert(false);
            String::new()
        },
    }
}

/// Whether `pw` can be hashed under `salt`.
pub fn can_hash(pw: &String, salt: &str) -> (r: bool)
    ensures
        r == hashable(pw@, salt@),
{
    argon2_hash(pw.as_str().as_bytes(), salt).is_some()
}

/// `hash_pw` where the salt allows it: `None` where the salt is no valid
/// salt string or Argon2 refuses it.
pub fn try_hash_pw(pw: String, salt: &str) -> (r: Option<String>)
    ensures
        r is Some <==> hashable(pw@, salt@),
        r matches Some(h) ==> h@ == password_hash(pw@, salt@) && is_argon2id_phc(h@, salt@)
            && argon2_phc_hash(encode_utf8(pw@), salt@) == Some(h@),
{
    match argon2_hash(pw.as_str().as_bytes(), salt) {
        Some(_) => Some(hash_pw(pw, salt)),
        None => None,
    }
}

/// Whether `pw` matches the stored hash of its user (`None` where it could
/// not be read): the hash of `pw` under `salt` is computed and compared.
pub fn verify_pw(pw: String, salt: &str, stored: Option<String>) -> (r: bool)
    requires
        hashable(pw@, salt@),
    ensures
        r == password_matches(pw@, salt@, match stored {
            Some(s) => Some(s@),
            None => None,
        }),
        r == (stored matches Some(s) && argon2_phc_hash(encode_utf8(pw@), salt@) == Some(s@)),
{
    let incoming = hash_pw(pw, salt);
    match stored {
        Some(s) => incoming == s,
        None => false,
    }
}

/// `verify_pw` where the salt allows it: `None` where `pw` cannot be hashed
/// under `salt`.
pub fn try_verify_pw(pw: String, salt: &str, stored: Option<String>) -> (r: Option<bool>)
    ensures
        r is Some <==> hashable(pw@, salt@),
        r matches Some(b) ==> b == password_matches(pw@, salt@, match stored {
            Some(s) => Some(s@),
            None => None,
        }) && b == (stored matches Some(s) && argon2_phc_hash(encode_utf8(pw@), salt@) == Some(s@)),
{
    match argon2_hash(pw.as_str().as_bytes(), salt) {
        Some(_) => Some(verify_pw(pw, salt, stored)),
        None => None,
    }
}

/// A password hashes to a stored form that it then matches.
pub proof fn lemma_hash_then_verify(pw: Seq<char>, salt: Seq<char>)
    requires
        hashable(pw, salt),
    ensures
        password_matches(pw, salt, Some(password_hash(pw, salt))),
{
}

/// A stored hash other than the password's own is refused.
pub proof fn lemma_other_hash_refused(pw: Seq<char>, salt: Seq<char>, stored: Seq<char>)
    requires
        stored != password_hash(pw, salt),
    ensures
        !password_matches(pw, salt, Some(stored)),
{
}

/// The stored form of a password is the Argon2 hash of all of its UTF-8
/// bytes, not of a part of them; and a password matches exactly the stored
/// hashes that equal that hash.
pub proof fn lemma_password_hash_covers_all_bytes(pw: Seq<char>, salt: Seq<char>, stored: Seq<char>)
    requires
        hashable(pw, salt),
    ensures
        argon2_phc_hash(encode_utf8(pw), salt) == Some(password_hash(pw, salt)),
        password_matches(pw, salt, Some(stored)) <==> argon2_phc_hash(encode_utf8(pw), salt) == Some(
            stored,
        ),
{
}

/// Two passwords match each other's stored hash only where Argon2 gives
/// their full byte strings the same hash: a password whose full bytes hash
/// differently from another's is refused against that other's stored hash.
pub proof fn lemma_distinct_hashes_refused(pw1: Seq<char>, pw2: Seq<char>, salt: Seq<char>)
    requires
        hashable(pw1, salt),
        hashable(pw2, salt),
        argon2_phc_hash(encode_utf8(pw1), salt) != argon2_phc_hash(encode_utf8(pw2), salt),
    ensures
        !password_matches(pw2, salt, Some(password_hash(pw1, salt))),
        !password_matches(pw1, salt, Some(password_hash(pw2, salt))),
{
}

} // verus!
