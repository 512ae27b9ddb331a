//! The manager of the controller's channels.

use crate::buffer::{slice_addr, Region};
use crate::channel::Channel;
use crate::channel_map::ChannelMap;
use crate::config::TransferConfig;
use crate::error::{validate_len, DmaError, UBLEN_MAX};
use crate::registers::{
    cc_mem_to_mem, cc_mem_to_mem_word, cie, configure_commands, disable_commands, enable_commands,
    start_commands, ChannelRegister, Command, Register, ALL_CHANNELS, CHANNELS,
};
use crate::transfer::{MemToMem, Transfer, TransferState};
use vstd::prelude::*;

verus! {

/// What a manager has done: the channels that are out on lease, and the
/// commands that are still to be carried out, in program order.
#[verifier::ext_equal]
pub struct XdmacState {
    /// Numbers of the leased channels.
    pub allocated: Set<u8>,
    /// The commands in the queue, the oldest first.
    pub commands: Seq<Command>,
}

impl XdmacState {
    /// The state with `commands` put at the end of the queue.
    pub open spec fn issue(self, commands: Seq<Command>) -> XdmacState {
        XdmacState { commands: self.commands + commands, ..self }
    }

    /// The state with channel `index` leased.
    pub open spec fn lease(self, index: u8) -> XdmacState {
        XdmacState { allocated: self.allocated.insert(index), ..self }
    }

    /// Channel `index` is the lowest that is not leased.
    pub open spec fn first_free(self, index: u8) -> bool {
        &&& index < CHANNELS
        &&& !self.allocated.contains(index)
        &&& forall|lower: u8| lower < index ==> self.allocated.contains(lower)
    }

    /// All channels are leased.
    pub open spec fn exhausted(self) -> bool {
        forall|index: u8| index < CHANNELS ==> self.allocated.contains(index)
    }

    /// The state of a new manager: the clock is to be turned on and all
    /// channels disabled, and none is leased.
    pub open spec fn fresh() -> XdmacState {
        XdmacState {
            allocated: Set::empty(),
            commands: seq![
                Command::EnableClock,
                Command::Write(Register::Gd, ALL_CHANNELS),
            ],
        }
    }
}

/// An allocation led from `pre` to `post` and gave `leased`.
pub open spec fn allocates(
    pre: XdmacState,
    post: XdmacState,
    leased: Result<u8, DmaError>,
) -> bool {
    match leased {
        Ok(index) => pre.first_free(index) && post == pre.lease(index),
        Err(error) => error == DmaError::NoChannel && pre.exhausted() && post == pre,
    }
}

/// The release of channel `index` led from `pre` to `post` and gave `released`.
pub open spec fn releases(
    pre: XdmacState,
    post: XdmacState,
    index: u8,
    released: Result<(), DmaError>,
) -> bool {
    match released {
        Ok(()) => {
            &&& pre.allocated.contains(index)
            &&& post.allocated == pre.allocated.remove(index)
            &&& post.commands == pre.commands + disable_commands(index)
        },
        Err(error) => {
            &&& error == DmaError::UnallocatedChannel
            &&& !pre.allocated.contains(index)
            &&& post == pre
        },
    }
}

/// A request led from `pre` to `post` and gave `started`: where there is
/// something to refuse, the error and no change, else `transfer`, with
/// `commands` put in the queue.
pub open spec fn starts<'a, K>(
    pre: XdmacState,
    post: XdmacState,
    refusal: Option<DmaError>,
    transfer: TransferState,
    commands: Seq<Command>,
    started: Result<Transfer<'a, K>, DmaError>,
) -> bool {
    match started {
        Ok(running) => refusal is None && running@ == transfer && post == pre.issue(commands),
        Err(error) => refusal == Some(error) && post == pre,
    }
}

/// Why a copy of `src_len` bytes to a buffer of `dst_len` bytes is refused.
pub open spec fn memcpy_refusal(src_len: nat, dst_len: nat) -> Option<DmaError> {
    if src_len > UBLEN_MAX {
        Some(DmaError::LengthTooLarge)
    } else if dst_len < src_len {
        Some(DmaError::BufferTooSmall)
    } else {
        None
    }
}

/// Copies the whole items of `src` to `dst`.
pub open spec fn memcpy_commands(
    channel: u8,
    src: Region,
    dst: Region,
    config: TransferConfig,
) -> Seq<Command> {
    start_commands(
        channel,
        src.addr,
        dst.addr,
        config.width.items(src.len as nat) as u32,
        cc_mem_to_mem_word(config.width),
    )
}

/// A request to copy `src` to `dst` led from `pre` to `post` and gave `started`.
pub open spec fn memcpy_starts<'a>(
    pre: XdmacState,
    post: XdmacState,
    channel: u8,
    src: Region,
    dst: Region,
    config: TransferConfig,
    started: Result<Transfer<'a, MemToMem>, DmaError>,
) -> bool {
    starts(
        pre,
        post,
        memcpy_refusal(src.len as nat, dst.len as nat),
        TransferState::on_one(channel),
        memcpy_commands(channel, src, dst, config),
        started,
    )
}

/// Runtime owner for the XDMAC peripheral.
///
/// `Xdmac` keeps the queue of commands for the hardware peripheral and tracks
/// which of the 24 hardware channels have been leased to transfer handles.
pub struct Xdmac {
    allocated: ChannelMap,
    commands: Vec<Command>,
}

impl View for Xdmac {
    type V = XdmacState;

    closed spec fn view(&self) -> XdmacState {
        XdmacState { allocated: self.allocated@, commands: self.commands@ }
    }
}

impl Xdmac {
    /// Creates an XDMAC manager; its first commands enable the peripheral
    /// clock and disable all channels.
    ///
    /// There is one controller, and it takes one manager: two would lease the
    /// same channels. Whoever owns the peripheral makes the manager.
    pub fn new() -> (xdmac: Xdmac)
        ensures
            xdmac@ == XdmacState::fresh(),
    {
        let mut xdmac = Xdmac { allocated: ChannelMap::empty(), commands: Vec::new() };
        xdmac.commands.push(Command::EnableClock);
        assert((1u32 << 24u32) - 1 == 0x00ff_ffff) by (bit_vector);
        xdmac.commands.push(Command::Write(Register::Gd, (1u32 << CHANNELS) - 1));
        xdmac
    }

    /// Takes the queued commands, to be carried out on the hardware in the
    /// order in which they come.
    pub fn take_commands(&mut self) -> (commands: Vec<Command>)
        ensures
            commands@ == old(self)@.commands,
            final(self)@ == (XdmacState { commands: Seq::empty(), ..old(self)@ }),
    {
        let mut commands: Vec<Command> = Vec::new();
        core::mem::swap(&mut commands, &mut self.commands);
        commands
    }

    /// Allocates the first free channel.
    ///
    /// The returned [`Channel`] is exclusive until it is released via
    /// [`Xdmac::release_channel`] or consumed by a transfer and later
    /// returned by [`Transfer::free`] or [`Transfer::cancel`].
    pub fn alloc_channel(&mut self) -> (leased: Result<Channel, DmaError>)
        ensures
            allocates(
                old(self)@,
                final(self)@,
                match leased {
                    Ok(channel) => Ok(channel@),
                    Err(error) => Err(error),
                },
            ),
            old(self)@.allocated == Set::<u8>::empty() ==> (leased matches Ok(channel)
                && channel@ == 0),
    {
        let mut index: u8 = 0;
        while index < CHANNELS
            invariant
                index <= CHANNELS,
                self@ == old(self)@,
                forall|lower: u8| lower < index ==> self@.allocated.contains(lower),
            decreases CHANNELS - index,
        {
            if !self.allocated.contains(index) {
                assert(index > 0 ==> self@.allocated.contains(0));
                self.allocated.insert(index);
                return Ok(Channel::lease(index));
            }
            index = index + 1;
        }
        assert(self@.allocated.contains(0));
        Err(DmaError::NoChannel)
    }

    /// Releases a previously allocated idle channel.
    pub fn release_channel(&mut self, channel: Channel) -> (released: Result<(), DmaError>)
        ensures
            releases(old(self)@, final(self)@, channel@, released),
    {
        let index: u8 = channel.index();
        if !self.allocated.contains(index) {
            return Err(DmaError::UnallocatedChannel);
        }
        self.disable(&channel);
        self.allocated.remove(index);
        Ok(())
    }

    /// Starts a memory-to-memory copy transfer, from where `src` lies to where
    /// `dst` lies.
    ///
    /// As many whole items of the configured width are copied as `src` holds;
    /// bytes at its end that do not fill an item are left out. The controller
    /// writes to `dst` while the transfer runs, so nothing is said of what `dst`
    /// holds once a copy has been started.
    pub fn memcpy<'a>(
        &mut self,
        channel: Channel,
        src: &'a [u8],
        dst: &'a mut [u8],
        config: TransferConfig,
    ) -> (started: Result<Transfer<'a, MemToMem>, DmaError>)
        ensures
            exists|from: Region, to: Region| #[trigger]
                memcpy_starts(old(self)@, final(self)@, channel@, from, to, config, started)
                    && from.len == src@.len() && to.len == old(dst)@.len() && call_ensures(
                    slice_addr,
                    (src,),
                    from.addr,
                ) && call_ensures(slice_addr, (&*old(dst),), to.addr),
            final(dst)@.len() == old(dst)@.len(),
            started is Err ==> final(dst)@ == old(dst)@,
    {
        let from = Region { addr: slice_addr(src), len: src.len() };
        let to = Region { addr: slice_addr(&*dst), len: dst.len() };
        self.start_memcpy(channel, from, to, config)
    }

    /// Starts a memory-to-memory copy between buffers at known addresses.
    ///
    /// The transfer borrows nothing. The caller keeps the memory of both
    /// regions alive, and free for the controller to use, until the transfer
    /// has ended.
    pub fn start_memcpy<'a>(
        &mut self,
        channel: Channel,
        src: Region,
        dst: Region,
        config: TransferConfig,
    ) -> (started: Result<Transfer<'a, MemToMem>, DmaError>)
        ensures
            memcpy_starts(old(self)@, final(self)@, channel@, src, dst, config, started),
    {
        match validate_len(src.len) {
            Ok(()) => {},
            Err(error) => {
                return Err(error);
            },
        }
        if dst.len < src.len {
            return Err(DmaError::BufferTooSmall);
        }
        self.configure(
            &channel,
            src.addr,
            dst.addr,
            config.width.count(src.len),
            cc_mem_to_mem(config.width),
        );
        self.enable(&channel);
        assert(self@ =~= old(self)@.issue(memcpy_commands(channel@, src, dst, config)));
        Ok(Transfer::new(channel))
    }

    /// Puts one command at the end of the queue.
    fn issue(&mut self, command: Command)
        ensures
            final(self)@ == old(self)@.issue(seq![command]),
    {
        self.commands.push(command);
        assert(self@ =~= old(self)@.issue(seq![command]));
    }

    /// Sets `channel` up for one microblock of `items` items from `src` to `dst`.
    pub(crate) fn configure(
        &mut self,
        channel: &Channel,
        src: u32,
        dst: u32,
        items: usize,
        cc: u32,
    )
        requires
            items <= UBLEN_MAX,
        ensures
            final(self)@ == old(self)@.issue(
                configure_commands(channel@, src, dst, items as u32, cc),
            ),
    {
        let index: u8 = channel.index();
        self.disable(channel);
        self.issue(Command::Write(Register::Channel(index, ChannelRegister::Cid), u32::MAX));
        self.issue(Command::ReadStatus(index));
        self.issue(Command::Write(Register::Channel(index, ChannelRegister::Csa), src));
        self.issue(Command::Write(Register::Channel(index, ChannelRegister::Cda), dst));
        self.issue(Command::Write(Register::Channel(index, ChannelRegister::Cnda), 0));
        self.issue(Command::Write(Register::Channel(index, ChannelRegister::Cndc), 0));
        self.issue(Command::Write(Register::Channel(index, ChannelRegister::Cubc), items as u32));
        self.issue(Command::Write(Register::Channel(index, ChannelRegister::Cc), cc));
        self.issue(Command::Write(Register::Channel(index, ChannelRegister::Cie), cie()));
        assert(self@ =~= old(self)@.issue(configure_commands(channel@, src, dst, items as u32, cc)));
    }

    /// Starts `channel`.
    pub(crate) fn enable(&mut self, channel: &Channel)
        ensures
            final(self)@ == old(self)@.issue(enable_commands(channel@)),
    {
        self.issue(Command::Write(Register::Ge, channel.mask()));
    }

    /// Stops `channel`.
    pub(crate) fn disable(&mut self, channel: &Channel)
        ensures
            final(self)@ == old(self)@.issue(disable_commands(channel@)),
    {
        self.issue(Command::Write(Register::Gd, channel.mask()));
    }
}

} // verus!
