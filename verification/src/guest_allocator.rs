//! The allocator that the guest lends to the host.
//!
//! The host cannot allocate in the guest's memory. It asks the guest for a
//! buffer, fills it and hands it over; the guest releases it when it has
//! copied what it needs.

use vstd::prelude::*;

verus! {

/// The buffer that the default allocator makes for the host: `size` bytes,
/// each of them zero. No buffer is larger than the largest signed size.
pub fn default_malloc_impl(size: usize) -> (buffer: Vec<u8>)
    requires
        size <= isize::MAX,
    ensures
        buffer@.len() == size,
        forall|i: int| 0 <= i < size ==> buffer@[i] == 0,
{
    let mut buffer: Vec<u8> = Vec::with_capacity(size);
    let mut i: usize = 0;
    while i < size
        invariant
            i <= size,
            buffer@.len() == i,
            forall|k: int| 0 <= k < i ==> buffer@[k] == 0,
        decreases size - i,
    {
        buffer.push(0);
        i += 1;
    }
    buffer
}

/// Whether releasing `ptr` gives anything back: the null pointer names no
/// buffer, and releasing it does nothing.
pub fn free(ptr: usize) -> (reclaim: bool)
    ensures
        reclaim == (ptr != 0),
{
    ptr != 0
}

} // verus!
