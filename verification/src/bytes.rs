//! Byte sequences.

use vstd::prelude::*;

verus! {

/// Whether two byte sequences hold the same bytes.
pub fn same_bytes(left: &[u8], right: &[u8]) -> (result: bool)
    ensures
        result == (left@ == right@),
{
    if left.len() != right.len() {
        return false;
    }
    let mut index: usize = 0;
    while index < left.len()
        invariant
            index <= left.len() == right.len(),
            forall|i: int| 0 <= i < index ==> left@[i] == right@[i],
        decreases left.len() - index,
    {
        if left[index] != right[index] {
            return false;
        }
        index += 1;
    }
    assert(left@ =~= right@);
    true
}

/// A copy of `bytes`.
pub fn copied(bytes: &[u8]) -> (result: Vec<u8>)
    ensures
        result@ == bytes@,
{
    vstd::slice::slice_to_vec(bytes)
}

} // verus!
