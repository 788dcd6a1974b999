//! Email validation codes: their key in the code store, their lifetime, how
//! they are drawn and how a submitted one is checked.
use vstd::prelude::*;
use vstd::string::*;
use crate::base62::{base62_digit, BASE62_ALPHABET};
use crate::sys::random_below;

verus! {

/// Keys of validation codes start with this, followed by the email.
pub const VALIDATE_CODE_KEY_PREFIX: &'static str = "email-validate:";

/// Seconds a validation code stays in the store.
pub const VALIDATE_CODE_TTL_SECS: u64 = 300;

/// Characters in a validation code.
pub const VALIDATE_CODE_LEN: usize = 6;

/// Why a submitted validation code was refused.
#[derive(Clone, Copy, Debug, PartialEq, Eq, Structural)]
pub enum CodeError {
    /// No code is on record (never sent, or expired).
    Expired,
    /// The code differs from the one on record.
    Mismatch,
}

/// The store key of the validation code sent to `email`.
pub fn validate_code_key(email: &str) -> (r: String)
    ensures
        r@ == VALIDATE_CODE_KEY_PREFIX@ + email@,
{
    let mut key = String::from_str(VALIDATE_CODE_KEY_PREFIX);
    key.append(email);
    key
}

/// Checks `given` against the code on record, `stored`.
pub fn check_validate_code(stored: &Option<String>, given: &String) -> (r: Result<(), CodeError>)
    ensures
        r == match stored {
            None => Err::<(), CodeError>(CodeError::Expired),
            Some(c) => if c@ == given@ {
                Ok::<(), CodeError>(())
            } else {
                Err::<(), CodeError>(CodeError::Mismatch)
            },
        },
{
    match stored {
        None => Err(CodeError::Expired),
        Some(c) => if *c == *given {
            Ok(())
        } else {
            Err(CodeError::Mismatch)
        },
    }
}

/// The code whose characters are the base62 digits `draws`.
pub fn validate_code_from_draws(draws: &Vec<u64>) -> (r: String)
    requires
        forall|i: int| 0 <= i < draws@.len() ==> #[trigger] draws@[i] < 62,
    ensures
        r@.len() == draws@.len(),
        forall|i: int| 0 <= i < draws@.len() ==> #[trigger] r@[i] == base62_digit(draws@[i] as nat),
{
    proof {
        reveal_strlit("0123456789ABCDEFGHIJKLMNOPQRSTUVWXYZabcdefghijklmnopqrstuvwxyz");
    }
    let alphabet: &str = BASE62_ALPHABET;
    let mut out = String::new();
    let mut i: usize = 0;
    while i < draws.len()
        invariant
            i <= draws@.len(),
            forall|k: int| 0 <= k < draws@.len() ==> #[trigger] draws@[k] < 62,
            alphabet@ == BASE62_ALPHABET@,
            alphabet.is_ascii(),
            alphabet@.len() == 62,
            out@.len() == i,
            forall|k: int| 0 <= k < i ==> #[trigger] out@[k] == base62_digit(draws@[k] as nat),
        decreases draws@.len() - i,
    {
        let d = draws[i] as usize;
        let piece = alphabet.substring_ascii(d, d + 1);
        let ghost prev = out@;
        out.append(piece);
        assert(out@ =~= prev + seq![base62_digit(draws@[i as int] as nat)]);
        i = i + 1;
    }
    out
}

/// `c` is one of the base62 digits.
pub open spec fn is_base62_char(c: char) -> bool {
    exists|d: nat| d < 62 && c == #[trigger] base62_digit(d)
}

/// A fresh validation code of base62 digits from the random source.
pub fn generate_validate_code() -> (r: String)
    ensures
        r@.len() == VALIDATE_CODE_LEN,
        forall|i: int| 0 <= i < VALIDATE_CODE_LEN ==> is_base62_char(#[trigger] r@[i]),
{
    let mut draws: Vec<u64> = Vec::new();
    while draws.len() < VALIDATE_CODE_LEN
        invariant
            draws@.len() <= VALIDATE_CODE_LEN,
            forall|k: int| 0 <= k < draws@.len() ==> #[trigger] draws@[k] < 62,
        decreases VALIDATE_CODE_LEN - draws@.len(),
    {
        draws.push(random_below(62));
    }
    let r = validate_code_from_draws(&draws);
    assert forall|i: int| 0 <= i < VALIDATE_CODE_LEN implies is_base62_char(#[trigger] r@[i]) by {
        let d = draws@[i] as nat;
        assert(r@[i] == base62_digit(d));
    }
    r
}

} // verus!
