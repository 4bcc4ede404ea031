//! Fixed-width byte strings of the Web3 wire types.
use vstd::prelude::*;

verus! {

broadcast use vstd::array::group_array_axioms;

/// A 32-byte hash.
pub type H256 = [u8; 32];

/// A 20-byte account address.
pub type H160 = [u8; 20];

/// An 8-byte block nonce.
pub type H64 = [u8; 8];

/// A 256-byte logs bloom filter.
pub type H2048 = [u8; 256];

/// `n` zero bytes.
pub open spec fn zeros(n: nat) -> Seq<u8> {
    Seq::new(n, |_i: int| 0u8)
}

/// The all-zero value of a fixed-width byte string.
pub fn zero_bytes<const N: usize>() -> (r: [u8; N])
    ensures
        r@ == zeros(N as nat),
{
    let r = [0u8; N];
    assert(r@ =~= zeros(N as nat));
    r
}

/// Copies a byte slice of exactly `N` bytes into a fixed-width value.
pub fn fixed_bytes<const N: usize>(b: &[u8]) -> (r: [u8; N])
    requires
        b@.len() == N,
    ensures
        r@ == b@,
{
    let mut r = [0u8; N];
    let mut i: usize = 0;
    while i < N
        invariant
            b@.len() == N,
            i <= N,
            forall|j: int| 0 <= j < i ==> r@[j] == b@[j],
        decreases N - i,
    {
        r[i] = b[i];
        i = i + 1;
    }
    assert(r@ =~= b@);
    r
}

} // verus!
