//! Base62 digits, as used for invite codes.
use vstd::prelude::*;

verus! {

/// The digit alphabet: `0-9`, then `A-Z`, then `a-z`.
pub const BASE62_ALPHABET: &'static str = "0123456789ABCDEFGHIJKLMNOPQRSTUVWXYZabcdefghijklmnopqrstuvwxyz";

/// The character that stands for the digit `d` (`d < 62`).
pub open spec fn base62_digit(d: nat) -> char {
    BASE62_ALPHABET@[d as int]
}

/// The base62 spelling of `n`: most significant digit first, no leading zero,
/// and a single `0` for zero.
pub open spec fn base62(n: nat) -> Seq<char>
    decreases n,
{
    if n < 62 {
        seq![base62_digit(n)]
    } else {
        base62(n / 62) + seq![base62_digit(n % 62)]
    }
}

/// `s` preceded by as many `0` digits as bring it to `width` characters.
pub open spec fn left_pad(s: Seq<char>, width: nat) -> Seq<char> {
    if s.len() >= width {
        s
    } else {
        Seq::new((width - s.len()) as nat, |_i: int| '0') + s
    }
}

} // verus!
