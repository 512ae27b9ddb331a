//! Running and completed transfers.

use crate::channel::{channel_number, Channel, ChannelSet};
use crate::controller::Xdmac;
use crate::error::DmaError;
use crate::registers::{disable_commands, Command, CHANNELS};
use crate::status::{decode, ChannelStatus, TransferStatus};
use core::marker::PhantomData;
use vstd::prelude::*;

verus! {

/// Marker for memory-to-memory transfers.
pub enum MemToMem {
    /// There is no value of this type.
    Never(core::convert::Infallible),
}

/// Marker for memory-to-peripheral transfers.
pub enum PeripheralTx {
    /// There is no value of this type.
    Never(core::convert::Infallible),
}

/// Marker for peripheral-to-memory transfers.
pub enum PeripheralRx {
    /// There is no value of this type.
    Never(core::convert::Infallible),
}

/// Marker for full-duplex peripheral transfers.
pub enum FullDuplex {
    /// There is no value of this type.
    Never(core::convert::Infallible),
}

/// The words that one reading of a transfer's interrupt status gave: that of
/// [`Transfer::channel`], read first, and that of
/// [`Transfer::secondary_channel`], where there is one.
#[derive(Clone, Copy, Debug, PartialEq, Eq, Structural)]
pub struct StatusReading {
    /// The word read from the primary channel's status register.
    pub primary: u32,
    /// The word read from the secondary channel's status register.
    pub secondary: Option<u32>,
}

/// What a transfer is about: the channels that it owns, which of them have
/// reported the end of their block, and whether any has reported an error.
pub struct TransferState {
    /// Number of the primary channel.
    pub primary: u8,
    /// Number of the secondary channel of a two-channel transfer.
    pub secondary: Option<u8>,
    /// The primary channel has reported the end of its block.
    pub primary_done: bool,
    /// The secondary channel has reported the end of its block.
    pub secondary_done: bool,
    /// Some channel has reported an error.
    pub failed: bool,
}

impl TransferState {
    /// A transfer that was just started on one channel.
    pub open spec fn on_one(primary: u8) -> TransferState {
        TransferState {
            primary,
            secondary: None,
            primary_done: false,
            secondary_done: false,
            failed: false,
        }
    }

    /// A transfer that was just started on two channels.
    pub open spec fn on_two(primary: u8, secondary: u8) -> TransferState {
        TransferState {
            primary,
            secondary: Some(secondary),
            primary_done: false,
            secondary_done: false,
            failed: false,
        }
    }

    /// The reading has one word for each channel of the transfer.
    pub open spec fn covers(self, reading: StatusReading) -> bool {
        reading.secondary is Some <==> self.secondary is Some
    }

    /// What the channels report in the reading.
    pub open spec fn reported(self, reading: StatusReading) -> TransferStatus {
        TransferStatus {
            primary: decode(reading.primary),
            secondary: match reading.secondary {
                Some(bits) => Some(decode(bits)),
                None => None,
            },
        }
    }

    /// The transfer after the reading: what a channel has reported stays
    /// reported, although reading a status register clears it.
    pub open spec fn after(self, reading: StatusReading) -> TransferState {
        let status = self.reported(reading);
        TransferState {
            primary_done: self.primary_done || status.primary.block_complete,
            secondary_done: self.secondary_done || (status.secondary matches Some(second)
                && second.block_complete),
            failed: self.failed || status.failed(),
            ..self
        }
    }

    /// All channels have reported the end of their block.
    pub open spec fn complete(self) -> bool {
        self.primary_done && (self.secondary is Some ==> self.secondary_done)
    }

    /// What waiting comes to at the reading.
    ///
    /// Where the reading decides by itself, it decides: an error in it is what
    /// comes out, and the end of block of all channels is success. Else the
    /// ends of block of earlier readings count too, unless there was an error
    /// among them. Else there is nothing yet.
    pub open spec fn wait_outcome(self, reading: StatusReading) -> Option<Result<(), DmaError>> {
        let status = self.reported(reading);
        if status.failed() {
            Some(Err(DmaError::Transfer(status)))
        } else if status.complete() {
            Some(Ok(()))
        } else if self.after(reading).complete() && !self.failed {
            Some(Ok(()))
        } else {
            None
        }
    }
}

/// A running or completed DMA transfer.
///
/// The buffers of the transfer stay borrowed for as long as it lives.
pub struct Transfer<'a, K> {
    primary: Channel,
    secondary: Option<Channel>,
    primary_done: bool,
    secondary_done: bool,
    failed: bool,
    kind: PhantomData<K>,
    borrow: PhantomData<&'a mut ()>,
}

impl<'a, K> View for Transfer<'a, K> {
    type V = TransferState;

    closed spec fn view(&self) -> TransferState {
        TransferState {
            primary: self.primary@,
            secondary: channel_number(self.secondary),
            primary_done: self.primary_done,
            secondary_done: self.secondary_done,
            failed: self.failed,
        }
    }
}

impl<'a, K> Transfer<'a, K> {
    /// A transfer on one channel.
    pub(crate) fn new(primary: Channel) -> (transfer: Self)
        ensures
            transfer@ == TransferState::on_one(primary@),
    {
        Transfer {
            primary,
            secondary: None,
            primary_done: false,
            secondary_done: false,
            failed: false,
            kind: PhantomData,
            borrow: PhantomData,
        }
    }

    /// A transfer on two channels.
    pub(crate) fn new_two(primary: Channel, secondary: Channel) -> (transfer: Self)
        ensures
            transfer@ == TransferState::on_two(primary@, secondary@),
    {
        Transfer {
            primary,
            secondary: Some(secondary),
            primary_done: false,
            secondary_done: false,
            failed: false,
            kind: PhantomData,
            borrow: PhantomData,
        }
    }

    /// Returns the primary channel index.
    pub fn channel(&self) -> (index: u8)
        ensures
            index == self@.primary,
            index < CHANNELS,
    {
        self.primary.index()
    }

    /// Returns the secondary channel index for two-channel transfers.
    pub fn secondary_channel(&self) -> (index: Option<u8>)
        ensures
            index == self@.secondary,
            index matches Some(number) ==> number < CHANNELS,
    {
        match &self.secondary {
            Some(channel) => Some(channel.index()),
            None => None,
        }
    }

    /// Decodes a reading of the XDMAC channel status bits of this transfer,
    /// and takes note of the channels that report the end of their block and
    /// of errors: reading cleared the bits, so no later reading shows them.
    pub fn status(&mut self, reading: StatusReading) -> (status: TransferStatus)
        requires
            old(self)@.covers(reading),
        ensures
            status == old(self)@.reported(reading),
            final(self)@ == old(self)@.after(reading),
    {
        let primary = ChannelStatus::from_bits(reading.primary);
        let secondary = match reading.secondary {
            Some(bits) => Some(ChannelStatus::from_bits(bits)),
            None => None,
        };
        if primary.block_complete {
            self.primary_done = true;
        }
        if let Some(second) = secondary {
            if second.block_complete {
                self.secondary_done = true;
            }
        }
        let status = TransferStatus { primary, secondary };
        if status.has_error() {
            self.failed = true;
        }
        status
    }

    /// Returns `true` when all channels have reported end-of-block, in this
    /// reading or in an earlier one.
    pub fn is_complete(&mut self, reading: StatusReading) -> (complete: bool)
        requires
            old(self)@.covers(reading),
        ensures
            complete == old(self)@.after(reading).complete(),
            final(self)@ == old(self)@.after(reading),
    {
        let _ = self.status(reading);
        self.all_done()
    }

    /// One turn of waiting until the transfer completes or reports an error.
    ///
    /// Returns `None` as long as neither has happened: read the status again
    /// and call again. An error is the one that this reading shows. The ends of
    /// block that earlier readings showed count as long as none of them showed
    /// an error; once one has, the transfer is for [`Transfer::cancel`], and
    /// only what a reading shows by itself ends the waiting.
    ///
    /// The transfer still owns its channel or channels after this method
    /// returns. Use [`Transfer::free`] after successful completion, or
    /// [`Transfer::cancel`] to disable and recover channels after an error.
    pub fn wait(&mut self, reading: StatusReading) -> (outcome: Option<Result<(), DmaError>>)
        requires
            old(self)@.covers(reading),
        ensures
            outcome == old(self)@.wait_outcome(reading),
            final(self)@ == old(self)@.after(reading),
    {
        let failed_before = self.failed;
        let status = self.status(reading);
        if status.has_error() {
            return Some(Err(DmaError::Transfer(status)));
        }
        if status.is_complete() {
            return Some(Ok(()));
        }
        if self.all_done() && !failed_before {
            return Some(Ok(()));
        }
        None
    }

    /// Tells whether all channels have reported the end of their block.
    fn all_done(&self) -> (done: bool)
        ensures
            done == self@.complete(),
    {
        self.primary_done && match self.secondary {
            Some(_) => self.secondary_done,
            None => true,
        }
    }

    /// Disables the channel or channels and returns them to the caller.
    pub fn cancel(self, xdmac: &mut Xdmac) -> (channels: ChannelSet)
        ensures
            channels.primary@ == self@.primary,
            channel_number(channels.secondary) == self@.secondary,
            final(xdmac)@ == old(xdmac)@.issue(self@.cancel_commands()),
    {
        xdmac.disable(&self.primary);
        if let Some(secondary) = &self.secondary {
            xdmac.disable(secondary);
        }
        self.free()
    }

    /// Returns the channel or channels owned by this transfer.
    pub fn free(self) -> (channels: ChannelSet)
        ensures
            channels.primary@ == self@.primary,
            channel_number(channels.secondary) == self@.secondary,
    {
        ChannelSet { primary: self.primary, secondary: self.secondary }
    }
}

impl TransferState {
    /// Disables the channels of the transfer, the primary one first.
    pub open spec fn cancel_commands(self) -> Seq<Command> {
        match self.secondary {
            Some(secondary) => disable_commands(self.primary) + disable_commands(secondary),
            None => disable_commands(self.primary),
        }
    }
}

} // verus!
