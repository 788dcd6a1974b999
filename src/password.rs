//! Password credentials: a random salt and a PBKDF2-HMAC-SHA256 key derived
//! from the password under it. Passwords themselves are never stored.
use vstd::prelude::*;
use vstd::string::*;
use vstd::utf8::encode_utf8;
use crate::sys::random_below;

verus! {

/// PBKDF2 rounds for every credential.
pub const PBKDF2_ITERATIONS: u32 = 10_000;

/// Bytes of a derived key.
pub const CREDENTIAL_LEN: usize = 32;

/// Bytes of a salt.
pub const SALT_LEN: usize = 16;

/// Longest password, in UTF-8 bytes, that is hashed.
pub const MAX_PASSWORD_BYTES: usize = 1024;

/// The PBKDF2-HMAC-SHA256 key of `secret` under `salt` after `iterations`
/// rounds, `len` bytes long.
pub uninterp spec fn pbkdf2_key(iterations: nat, salt: Seq<u8>, secret: Seq<u8>, len: nat) -> Seq<u8>;

/// Relies on `ring::pbkdf2::derive` with `PBKDF2_HMAC_SHA256`: it fills the
/// output with the derived key, which depends on its inputs alone. It panics
/// only for a zero iteration count, an output longer than `u32::MAX` digests,
/// or a salt or secret too long for the digest, all excluded here.
#[verifier::external_body]
fn pbkdf2_derive(iterations: u32, salt: &[u8], secret: &[u8]) -> (r: Vec<u8>)
    requires
        iterations > 0,
        salt@.len() <= MAX_PASSWORD_BYTES,
        secret@.len() <= MAX_PASSWORD_BYTES,
    ensures
        r@ == pbkdf2_key(iterations as nat, salt@, secret@, CREDENTIAL_LEN as nat),
        r@.len() == CREDENTIAL_LEN,
{
    let mut out = vec![0u8; CREDENTIAL_LEN];
    let rounds = std::num::NonZeroU32::new(iterations).unwrap();
    ring::pbkdf2::derive(ring::pbkdf2::PBKDF2_HMAC_SHA256, rounds, salt, secret, &mut out);
    out
}

/// The stored key of password `passwd` under `salt`.
pub open spec fn credential(salt: Seq<u8>, passwd: Seq<char>) -> Seq<u8> {
    pbkdf2_key(PBKDF2_ITERATIONS as nat, salt, encode_utf8(passwd), CREDENTIAL_LEN as nat)
}

/// A password short enough to be hashed.
pub open spec fn password_fits(passwd: Seq<char>) -> bool {
    encode_utf8(passwd).len() <= MAX_PASSWORD_BYTES
}

/// Whether `passwd` is short enough to be hashed.
pub fn password_fits_exec(passwd: &String) -> (r: bool)
    ensures
        r == password_fits(passwd@),
{
    passwd.as_str().as_bytes().len() <= MAX_PASSWORD_BYTES
}

/// The key of `passwd` under `salt`.
pub fn hash_password(salt: &Vec<u8>, passwd: &String) -> (r: Vec<u8>)
    requires
        salt@.len() == SALT_LEN,
        password_fits(passwd@),
    ensures
        r@ == credential(salt@, passwd@),
        r@.len() == CREDENTIAL_LEN,
{
    pbkdf2_derive(PBKDF2_ITERATIONS, salt.as_slice(), passwd.as_str().as_bytes())
}

/// `passwd` is the password whose key under `salt` is `key`.
pub open spec fn signs_in(salt: Seq<u8>, key: Seq<u8>, passwd: Seq<char>) -> bool {
    salt.len() == SALT_LEN && password_fits(passwd) && credential(salt, passwd) == key
}

/// Whether `passwd` is the password whose key under `salt` is `key`.
pub fn verify_password(salt: &Vec<u8>, key: &Vec<u8>, passwd: &String) -> (r: bool)
    ensures
        r == signs_in(salt@, key@, passwd@),
{
    if salt.len() != SALT_LEN || !password_fits_exec(passwd) {
        return false;
    }
    let derived = hash_password(salt, passwd);
    if derived.len() != key.len() {
        return false;
    }
    let mut i: usize = 0;
    while i < derived.len()
        invariant
            salt@.len() == SALT_LEN,
            password_fits(passwd@),
            derived@ == credential(salt@, passwd@),
            derived@.len() == key@.len(),
            i <= derived@.len(),
            forall|j: int| 0 <= j < i ==> derived@[j] == key@[j],
        decreases derived@.len() - i,
    {
        if derived[i] != key[i] {
            assert(derived@[i as int] != key@[i as int]);
            return false;
        }
        i = i + 1;
    }
    assert(derived@ =~= key@);
    true
}

/// A fresh salt from the random source.
pub fn new_salt() -> (r: Vec<u8>)
    ensures
        r@.len() == SALT_LEN,
{
    let mut salt: Vec<u8> = Vec::new();
    while salt.len() < SALT_LEN
        invariant
            salt@.len() <= SALT_LEN,
        decreases SALT_LEN - salt@.len(),
    {
        salt.push(random_below(256) as u8);
    }
    salt
}

} // verus!
