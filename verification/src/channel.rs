//! Leases on hardware channels.

use crate::registers::{channel_mask, CHANNELS};
use vstd::prelude::*;

verus! {

/// A leased XDMAC channel.
#[derive(Debug, PartialEq, Eq, Structural)]
pub struct Channel {
    index: u8,
}

impl Channel {
    /// A lease is always on one of the hardware channels.
    #[verifier::type_invariant]
    spec fn exists_in_hardware(self) -> bool {
        self.index < CHANNELS
    }

    /// The channel number.
    pub closed spec fn view(&self) -> u8 {
        self.index
    }

    /// Leases channel `index`.
    pub(crate) fn lease(index: u8) -> (channel: Channel)
        requires
            index < CHANNELS,
        ensures
            channel@ == index,
    {
        Channel { index }
    }

    /// Returns the channel number.
    pub fn index(&self) -> (index: u8)
        ensures
            index == self@,
            index < CHANNELS,
    {
        proof {
            use_type_invariant(self);
        }
        self.index
    }

    /// Returns the channel's bit in the registers that hold one bit a channel.
    pub(crate) fn mask(&self) -> (mask: u32)
        ensures
            mask == channel_mask(self@),
    {
        proof {
            use_type_invariant(self);
        }
        1u32 << self.index
    }
}

/// Channel set returned by a completed or cancelled transfer.
pub struct ChannelSet {
    /// Primary channel used by the transfer.
    pub primary: Channel,
    /// Secondary channel used by full-duplex transfers.
    pub secondary: Option<Channel>,
}

/// The number of the leased channel, if there is one.
pub open spec fn channel_number(channel: Option<Channel>) -> Option<u8> {
    match channel {
        Some(channel) => Some(channel@),
        None => None,
    }
}

} // verus!
