//! Fixed-size byte strings: secret keys, public keys and hashes.

use vstd::prelude::*;

verus! {

/// A 32-byte value: a secret key, a launcher id or a puzzle hash.
pub type Bytes32 = [u8; 32];

/// A 48-byte value: a compressed public key.
pub type Bytes48 = [u8; 48];

/// Compares two byte arrays of the same length, position by position.
pub fn bytes_equal<const N: usize>(a: &[u8; N], b: &[u8; N]) -> (equal: bool)
    ensures
        equal == (a@ == b@),
{
    let mut i: usize = 0;
    while i < N
        invariant
            i <= N,
            forall|k: int| 0 <= k < i ==> a@[k] == b@[k],
        decreases N - i,
    {
        if a[i] != b[i] {
            return false;
        }
        i += 1;
    }
    assert(a@ =~= b@);
    true
}

/// Compares two optional 32-byte values.
pub fn option_bytes32_equal(a: &Option<Bytes32>, b: &Option<Bytes32>) -> (equal: bool)
    ensures
        equal == (opt_view(*a) == opt_view(*b)),
{
    match (a, b) {
        (Some(x), Some(y)) => bytes_equal(x, y),
        (None, None) => true,
        _ => false,
    }
}

/// The byte sequence held by an optional 32-byte value.
pub open spec fn opt_view(a: Option<Bytes32>) -> Option<Seq<u8>> {
    match a {
        Some(x) => Some(x@),
        None => None,
    }
}

} // verus!
