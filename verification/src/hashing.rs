//! The commitment digest: SHA-256 over the candidate secret, and the
//! constant-structure comparison of a computed digest against the stored
//! commitment.

use vstd::prelude::*;

verus! {

/// The SHA-256 digest of a byte string. The escrow never states what the
/// digest is on given bytes; claims are judged only by whether the digest of
/// the presented secret equals the stored commitment.
pub uninterp spec fn sha256_of(data: Seq<u8>) -> Seq<u8>;

/// Relies on `near_sdk::env::sha256`: the SHA-256 digest of the input,
/// 32 bytes, a function of the input bytes alone.
#[verifier::external_body]
pub(crate) fn sha256_digest(data: &Vec<u8>) -> (digest: Vec<u8>)
    ensures
        digest@ == sha256_of(data@),
        digest@.len() == 32,
{
    near_sdk::env::sha256(data)
}

/// Byte equality over two digests with constant structure: every position is
/// visited whatever the bytes hold, so no early exit leaks how long a prefix
/// of a guessed digest matched.
pub fn digests_equal(a: &Vec<u8>, b: &Vec<u8>) -> (eq: bool)
    ensures
        eq == (a@ == b@),
{
    if a.len() != b.len() {
        return false;
    }
    let mut same = true;
    let mut i: usize = 0;
    while i < a.len()
        invariant
            a@.len() == b@.len(),
            i <= a@.len(),
            same == (forall|j: int| 0 <= j < i ==> a@[j] == b@[j]),
        decreases a@.len() - i,
    {
        let bytes_match = a[i] == b[i];
        same = same && bytes_match;
        i += 1;
    }
    proof {
        if same {
            assert(a@ =~= b@);
        }
    }
    same
}

} // verus!
