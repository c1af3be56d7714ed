//! Texts: keys, destinations and identities, as plain bytes.

use vstd::prelude::*;

verus! {

/// Whether the host can hold a text: it counts the bytes of a string in a
/// `u32`.
pub open spec fn fits_host(text: Seq<u8>) -> bool {
    text.len() <= u32::MAX
}

/// Whether the host can hold a text.
pub fn fits(text: &[u8]) -> (fit: bool)
    ensures
        fit == fits_host(text@),
{
    text.len() <= 0xffff_ffff
}

/// Whether two texts are the same.
pub fn same_text(a: &[u8], b: &[u8]) -> (same: bool)
    ensures
        same == (a@ == b@),
{
    if a.len() != b.len() {
        return false;
    }
    let mut i: usize = 0;
    while i < a.len()
        invariant
            a@.len() == b@.len(),
            0 <= i <= a@.len(),
            forall|j: int| 0 <= j < i ==> a@[j] == b@[j],
        decreases a@.len() - i,
    {
        if a[i] != b[i] {
            return false;
        }
        i += 1;
    }
    assert(a@ =~= b@);
    true
}

} // verus!
