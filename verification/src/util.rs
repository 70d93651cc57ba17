//! Small helpers shared by the handlers: sorting and random bytes.
use vstd::prelude::*;

verus! {

/// Whether a byte sequence is in ascending order.
pub open spec fn sorted(s: Seq<u8>) -> bool {
    forall|i: int, j: int| 0 <= i <= j < s.len() ==> s[i] <= s[j]
}

/// `slice::sort` on bytes: the same bytes, in ascending order.
#[verifier::external_body]
pub(crate) fn sort_bytes(v: &mut Vec<u8>)
    ensures
        final(v)@.len() == old(v)@.len(),
        final(v)@.to_multiset() == old(v)@.to_multiset(),
        sorted(final(v)@),
{
    v.sort();
}

/// A byte drawn by `rand::distr::Uniform` over `0..u8::MAX` from the thread's generator:
/// whatever is drawn is below 255.
#[verifier::external_body]
fn random_byte() -> (r: u8)
    ensures
        r < 255,
{
    rand::distr::Distribution::sample(&rand::distr::Uniform::new(0u8, u8::MAX).unwrap(), &mut rand::rng())
}

/// `rand::random_range` over `low..high`: whatever is drawn lies in that range.
#[verifier::external_body]
pub(crate) fn random_len(low: usize, high: usize) -> (r: usize)
    requires
        low < high,
    ensures
        low <= r < high,
{
    rand::random_range(low..high)
}

/// `len` random bytes, each below 255.
pub fn generate_random_u8_vec(len: usize) -> (r: Vec<u8>)
    ensures
        r@.len() == len,
        forall|i: int| 0 <= i < len ==> #[trigger] r@[i] < 255,
{
    let mut out: Vec<u8> = Vec::new();
    let mut i: usize = 0;
    while i < len
        invariant
            i <= len,
            out@.len() == i,
            forall|j: int| 0 <= j < i ==> #[trigger] out@[j] < 255,
        decreases len - i,
    {
        out.push(random_byte());
        i = i + 1;
    }
    out
}

} // verus!
