//! The random body generator: alphanumeric strings of a requested length.

use vstd::prelude::*;
use crate::text;

verus! {

/// Whether `b` is the ASCII code of an alphanumeric character.
pub open spec fn is_alnum_byte(b: u8) -> bool {
    (48 <= b <= 57) || (65 <= b <= 90) || (97 <= b <= 122)
}

/// Whether `c` is an ASCII alphanumeric character.
pub open spec fn is_alnum_char(c: char) -> bool {
    (48 <= c as u32 <= 57) || (65 <= c as u32 <= 90) || (97 <= c as u32 <= 122)
}

/// Relies on rand's `Alphanumeric` distribution: every sampled byte is one
/// of the 62 ASCII alphanumeric characters.
#[verifier::external_body]
fn sample_alnum_byte() -> (b: u8)
    ensures
        is_alnum_byte(b),
{
    rand::Rng::sample(&mut rand::thread_rng(), rand::distributions::Alphanumeric)
}

/// Produce a string of exactly `length` alphanumeric characters, each drawn
/// from the pseudorandom source.
pub fn generate(length: u16) -> (s: String)
    ensures
        s@.len() == length as nat,
        forall|i: int| 0 <= i < s@.len() ==> is_alnum_char(#[trigger] s@[i]),
{
    let mut bytes: Vec<u8> = Vec::new();
    let mut i: u16 = 0;
    while i < length
        invariant
            i <= length,
            bytes@.len() == i as nat,
            forall|j: int| 0 <= j < bytes@.len() ==> is_alnum_byte(#[trigger] bytes@[j]),
        decreases length - i,
    {
        bytes.push(sample_alnum_byte());
        i = i + 1;
    }
    let s = text::ascii_string(&bytes);
    s
}

} // verus!
