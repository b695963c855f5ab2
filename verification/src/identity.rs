//! Program identities, and what it takes for a derived one to match.
use vstd::prelude::*;

verus! {

/// Number of bytes in a program identity.
pub const IDENTITY_BYTES: usize = 32;

/// Whether two identities hold the same 32 bytes.
pub fn same_identity(a: &[u8; 32], b: &[u8; 32]) -> (same: bool)
    ensures
        same == (a@ == b@),
{
    let mut i: usize = 0;
    while i < IDENTITY_BYTES
        invariant
            i <= IDENTITY_BYTES,
            forall|k: int| 0 <= k < i ==> a@[k] == b@[k],
        decreases IDENTITY_BYTES - i,
    {
        if a[i] != b[i] {
            return false;
        }
        i = i + 1;
    }
    assert(a@ =~= b@);
    true
}

/// Whether what an engine derived is what was expected of it: the engine
/// derived something, and it holds the same bytes.
pub open spec fn corroborates(expected: Seq<u8>, derived: Option<[u8; 32]>) -> bool {
    derived matches Some(d) && d@ == expected
}

} // verus!
