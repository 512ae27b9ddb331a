//! Why a request is refused.

use crate::status::TransferStatus;
use vstd::prelude::*;

verus! {

/// The longest microblock.
pub const UBLEN_MAX: usize = 0x00ff_ffff;

/// Errors reported by the XDMAC abstraction.
#[derive(Clone, Copy, Debug, PartialEq, Eq, Structural)]
pub enum DmaError {
    /// No channel is available from the runtime allocator.
    NoChannel,
    /// The channel was not allocated by this manager.
    UnallocatedChannel,
    /// The requested transfer length does not fit in an XDMAC microblock.
    LengthTooLarge,
    /// The destination buffer is too small for the source buffer.
    BufferTooSmall,
    /// Full-duplex TX and RX buffers have different lengths.
    LengthMismatch,
    /// The peripheral is not in the required operating mode.
    InvalidMode,
    /// A transfer reported an error status.
    Transfer(TransferStatus),
}

/// Checks that `len` bytes are no more than a microblock has room for items.
/// An item has one byte or more, so that the items of `len` bytes fit too.
pub fn validate_len(len: usize) -> (checked: Result<(), DmaError>)
    ensures
        match checked {
            Ok(()) => len <= UBLEN_MAX,
            Err(error) => len > UBLEN_MAX && error == DmaError::LengthTooLarge,
        },
{
    if len > UBLEN_MAX {
        Err(DmaError::LengthTooLarge)
    } else {
        Ok(())
    }
}

} // verus!
