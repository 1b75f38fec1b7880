//! Random numbers from the host.

use vstd::prelude::*;

verus! {

/// Random number source for guest programs. The numbers come from a generator
/// in the host, 64 bits at a time.
#[derive(Debug)]
pub struct GuestRng {
    _private: (),
}

impl Clone for GuestRng {
    fn clone(&self) -> GuestRng {
        GuestRng { _private: () }
    }
}

/// Get the RNG for this guest.
pub fn guest_rng() -> GuestRng {
    GuestRng { _private: () }
}

impl GuestRng {
    /// The 32-bit number that is made of the 64-bit number `word` from the
    /// host: its low half.
    pub fn next_u32(&mut self, word: u64) -> (low: u32)
        ensures
            low == word % 0x1_0000_0000,
    {
        assert(word & 0xffff_ffff == word % 0x1_0000_0000) by (bit_vector);
        assert(word & 0xffff_ffff <= 0xffff_ffff) by (bit_vector);
        (word & 0xffff_ffff) as u32
    }
}

} // verus!
