//! Message selectors derived from message names.

use vstd::prelude::*;
use vstd::string::StringSliceAdditionalSpecFns;
use crate::primitives::{Hash32, Selector};

verus! {

/// The BLAKE2b-256 digest of the UTF-8 bytes of `s`.
pub uninterp spec fn blake2_256_of(s: Seq<u8>) -> Seq<u8>;

/// Relies on sp-core's `Blake2Hasher::hash`: the 32-byte BLAKE2b-256 digest of `data`.
#[verifier::external_body]
fn blake2_256(data: &[u8]) -> (r: Hash32)
    ensures
        r@ == blake2_256_of(data@),
{
    <sp_core::Blake2Hasher as sp_core::Hasher>::hash(data).0
}

/// The selector a message name stands for: the first four bytes of a digest.
pub open spec fn selector_of_digest(digest: Seq<u8>) -> Seq<u8> {
    digest.subrange(0, 4)
}

/// The first four bytes of `digest`.
pub fn selector_from_digest(digest: &Hash32) -> (r: Selector)
    ensures
        r@ == selector_of_digest(digest@),
{
    let r: Selector = [digest[0], digest[1], digest[2], digest[3]];
    proof {
        assert(r@ =~= selector_of_digest(digest@));
    }
    r
}

/// The selector used to dispatch the message `name` when no metadata is at hand: the
/// first four bytes of the BLAKE2b-256 digest of the name.
pub fn compute_selector(name: &str) -> (r: Selector)
    ensures
        r@ == selector_of_digest(blake2_256_of(name.spec_bytes())),
{
    let digest = blake2_256(name.as_bytes());
    selector_from_digest(&digest)
}

} // verus!
