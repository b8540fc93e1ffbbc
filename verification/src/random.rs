//! Random identifiers drawn from the letters and digits of ASCII.

use rand::Rng;
use vstd::prelude::*;

verus! {

/// Whether `b` is an ASCII letter or digit.
pub open spec fn is_alphanumeric(b: u8) -> bool {
    (0x30 <= b && b <= 0x39) || (0x41 <= b && b <= 0x5a) || (0x61 <= b && b <= 0x7a)
}

/// Whether `s` consists of ASCII letters and digits only.
pub open spec fn all_alphanumeric(s: Seq<char>) -> bool {
    forall|i: int|
        0 <= i < s.len() ==> (s[i] as u32) < 128 && is_alphanumeric(#[trigger] s[i] as u8)
}

/// One draw from `rand::distributions::Alphanumeric` with the thread-local
/// generator of `rand::thread_rng`. The distribution hands out bytes of the
/// sets `A-Z`, `a-z` and `0-9` only; which one is left open.
#[verifier::external_body]
fn sample_alphanumeric() -> (b: u8)
    ensures
        is_alphanumeric(b),
{
    rand::thread_rng().sample(rand::distributions::Alphanumeric)
}

/// A fresh random identifier of `len` ASCII letters and digits.
pub fn randstring(len: usize) -> (s: String)
    ensures
        s@.len() == len,
        all_alphanumeric(s@),
{
    let mut s = String::new();
    let mut i: usize = 0;
    while i < len
        invariant
            i <= len,
            s@.len() == i,
            all_alphanumeric(s@),
        decreases len - i,
    {
        let b = sample_alphanumeric();
        s.push(b as char);
        i += 1;
    }
    s
}

} // verus!
