//! What the channels of a transfer report.

use vstd::prelude::*;

verus! {

/// Decoded XDMAC channel interrupt status.
#[derive(Clone, Copy, Debug, PartialEq, Eq, Structural)]
pub struct ChannelStatus {
    /// End of block.
    pub block_complete: bool,
    /// End of linked list.
    pub linked_list_complete: bool,
    /// End of disable.
    pub disabled: bool,
    /// End of flush.
    pub flushed: bool,
    /// Read bus error.
    pub read_bus_error: bool,
    /// Write bus error.
    pub write_bus_error: bool,
    /// Request overflow error.
    pub request_overflow: bool,
}

/// What the interrupt status word `bits` says: one flag for each of its seven
/// low bits, from the lowest up. The other bits say nothing.
pub open spec fn decode(bits: u32) -> ChannelStatus {
    ChannelStatus {
        block_complete: bits % 2 == 1,
        linked_list_complete: bits / 2 % 2 == 1,
        disabled: bits / 4 % 2 == 1,
        flushed: bits / 8 % 2 == 1,
        read_bus_error: bits / 16 % 2 == 1,
        write_bus_error: bits / 32 % 2 == 1,
        request_overflow: bits / 64 % 2 == 1,
    }
}

impl Default for ChannelStatus {
    /// Nothing is reported.
    fn default() -> (status: ChannelStatus)
        ensures
            status == decode(0),
    {
        ChannelStatus {
            block_complete: false,
            linked_list_complete: false,
            disabled: false,
            flushed: false,
            read_bus_error: false,
            write_bus_error: false,
            request_overflow: false,
        }
    }
}

impl ChannelStatus {
    /// Some error is reported.
    pub open spec fn failed(self) -> bool {
        self.read_bus_error || self.write_bus_error || self.request_overflow
    }

    /// Decodes a word read from a channel's interrupt status register.
    pub fn from_bits(bits: u32) -> (status: ChannelStatus)
        ensures
            status == decode(bits),
    {
        proof {
            assert({
                &&& (bits & (1u32 << 0) != 0) == (bits % 2 == 1)
                &&& (bits & (1u32 << 1) != 0) == (bits / 2 % 2 == 1)
                &&& (bits & (1u32 << 2) != 0) == (bits / 4 % 2 == 1)
                &&& (bits & (1u32 << 3) != 0) == (bits / 8 % 2 == 1)
                &&& (bits & (1u32 << 4) != 0) == (bits / 16 % 2 == 1)
                &&& (bits & (1u32 << 5) != 0) == (bits / 32 % 2 == 1)
                &&& (bits & (1u32 << 6) != 0) == (bits / 64 % 2 == 1)
            }) by (bit_vector);
        }
        ChannelStatus {
            block_complete: bits & (1u32 << 0) != 0,
            linked_list_complete: bits & (1u32 << 1) != 0,
            disabled: bits & (1u32 << 2) != 0,
            flushed: bits & (1u32 << 3) != 0,
            read_bus_error: bits & (1u32 << 4) != 0,
            write_bus_error: bits & (1u32 << 5) != 0,
            request_overflow: bits & (1u32 << 6) != 0,
        }
    }

    /// Returns `true` when any error bit is set.
    pub fn has_error(&self) -> (error: bool)
        ensures
            error == self.failed(),
    {
        self.read_bus_error || self.write_bus_error || self.request_overflow
    }
}

/// Status for a one- or two-channel transfer.
#[derive(Clone, Copy, Debug, PartialEq, Eq, Structural)]
pub struct TransferStatus {
    /// Status of the primary channel.
    pub primary: ChannelStatus,
    /// Status of the secondary channel, if present.
    pub secondary: Option<ChannelStatus>,
}

impl TransferStatus {
    /// Every channel reports the end of its block.
    pub open spec fn complete(self) -> bool {
        self.primary.block_complete && (self.secondary matches Some(status)
            ==> status.block_complete)
    }

    /// Some channel reports an error.
    pub open spec fn failed(self) -> bool {
        self.primary.failed() || (self.secondary matches Some(status) && status.failed())
    }

    /// Returns `true` when every channel has completed its block.
    pub fn is_complete(&self) -> (complete: bool)
        ensures
            complete == self.complete(),
    {
        self.primary.block_complete && match self.secondary {
            Some(status) => status.block_complete,
            None => true,
        }
    }

    /// Returns `true` when any channel has reported an error.
    pub fn has_error(&self) -> (error: bool)
        ensures
            error == self.failed(),
    {
        self.primary.has_error() || match self.secondary {
            Some(status) => status.has_error(),
            None => false,
        }
    }
}

} // verus!
