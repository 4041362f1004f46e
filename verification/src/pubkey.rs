//! Account addresses.

use vstd::prelude::*;

verus! {

/// A 32 byte account address.
pub type Pubkey = [u8; 32];

/// Whether two addresses are the same.
pub fn pubkey_eq(a: &Pubkey, b: &Pubkey) -> (eq: bool)
    ensures
        eq == (*a == *b),
{
    let mut i: usize = 0;
    while i < 32
        invariant
            i <= 32,
            forall|j: int| 0 <= j < i ==> a[j] == b[j],
        decreases 32 - i,
    {
        if a[i] != b[i] {
            return false;
        }
        i += 1;
    }
    assert(*a =~= *b);
    true
}

} // verus!
