//! Clearing key material.

use vstd::prelude::*;

verus! {

/// `len` zero bytes.
pub open spec fn zeroed(len: nat) -> Seq<u8> {
    Seq::new(len, |i: int| 0u8)
}

/// Overwrites every byte of `buffer` with zero; the length stays.
pub fn wipe(buffer: &mut Vec<u8>)
    ensures
        final(buffer)@ == zeroed(old(buffer)@.len()),
    no_unwind
{
    let mut i: usize = 0;
    while i < buffer.len()
        invariant
            buffer@.len() == old(buffer)@.len(),
            i <= buffer@.len(),
            forall|k: int| 0 <= k < i ==> buffer@[k] == 0u8,
        decreases buffer@.len() - i,
    {
        buffer[i] = 0;
        i += 1;
    }
    assert(buffer@ =~= zeroed(old(buffer)@.len()));
}

} // verus!
