//! Where the bytes of a transfer lie.

use vstd::prelude::*;

verus! {

/// A stretch of memory, as the controller is told of it.
#[derive(Clone, Copy, Debug, PartialEq, Eq, Structural)]
pub struct Region {
    /// Address of the first byte.
    pub addr: u32,
    /// Number of bytes.
    pub len: usize,
}

/// Returns the address of the slice, as a word: `<[u8]>::as_ptr`, whose
/// pointer becomes an integer by a cast. Where a slice lies is up to the
/// machine, so nothing is claimed of the address; a contract that speaks of
/// it says that it came of this call on that slice.
#[verifier::external_body]
pub fn slice_addr(bytes: &[u8]) -> (addr: u32) {
    bytes.as_ptr() as u32
}

} // verus!
