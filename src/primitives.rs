//! Plain values shared by the session, the record and the mocking layer.

use vstd::prelude::*;

verus! {

/// A 20-byte contract address.
pub type Address = [u8; 20];

/// A 32-byte account identifier.
pub type AccountId = [u8; 32];

/// A 32-byte hash (code hashes, event signature topics).
pub type Hash32 = [u8; 32];

/// A 32-byte deployment salt.
pub type Salt = [u8; 32];

/// The 4-byte identifier that routes a call to a contract message.
pub type Selector = [u8; 4];

/// The balance type of the sandbox runtime.
pub type Balance = u128;

/// Whether two byte arrays of the same length are equal.
pub fn bytes_eq<const N: usize>(a: &[u8; N], b: &[u8; N]) -> (r: bool)
    ensures
        r == (*a == *b),
{
    let mut i: usize = 0;
    while i < N
        invariant
            i <= N,
            a@.len() == N,
            b@.len() == N,
            forall|j: int| 0 <= j < i ==> a@[j] == b@[j],
        decreases N - i,
    {
        if a[i] != b[i] {
            return false;
        }
        i += 1;
    }
    proof {
        assert(*a =~= *b);
    }
    true
}

/// A two-dimensional gas budget: computation time and proof size.
#[derive(Clone, Copy, Debug, PartialEq, Eq, Structural)]
pub struct Weight {
    pub ref_time: u64,
    pub proof_size: u64,
}

impl Weight {
    /// Builds a weight from its two components.
    pub fn from_parts(ref_time: u64, proof_size: u64) -> (r: Weight)
        ensures
            r.ref_time == ref_time,
            r.proof_size == proof_size,
    {
        Weight { ref_time, proof_size }
    }
}

/// How much storage deposit an operation may charge.
#[derive(Clone, Copy, Debug, PartialEq, Eq, Structural)]
pub enum DepositLimit {
    /// At most this balance.
    Balance(Balance),
    /// No limit is checked.
    Unchecked,
}

/// Whether the sandbox entered a contract through its constructor or through a message.
#[derive(Clone, Copy, Debug, PartialEq, Eq, Structural)]
pub enum EntryPoint {
    Constructor,
    Call,
}

/// The reason why the sandbox could not even attempt an execution.
#[derive(Clone, Copy, Debug, PartialEq, Eq)]
pub enum DispatchFailure {
    /// An error raised by a runtime module, by module index and error code.
    Module { index: u8, error: [u8; 4] },
    /// The origin is not allowed to perform the operation.
    BadOrigin,
    /// A resource (gas, storage deposit) ran out.
    Exhausted,
    /// Any other failure.
    Other,
}

} // verus!
