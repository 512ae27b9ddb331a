//! The XDMAC registers that the driver touches, the values it puts into them,
//! and the commands that carry them to the hardware.

use crate::config::DataWidth;
use vstd::prelude::*;

verus! {

/// Number of hardware channels.
pub const CHANNELS: u8 = 24;

/// One bit for each of the hardware channels.
pub const ALL_CHANNELS: u32 = 0x00ff_ffff;

/// `CC.TYPE`: the transfer is synchronised with a peripheral.
const CC_TYPE_PERIPHERAL: u32 = 0x0000_0001;

/// `CC.DSYNC`: data flows from the peripheral to memory.
const CC_DSYNC_PER_TO_MEM: u32 = 0x0000_0010;

/// `CC.DWIDTH`: 8-bit data items.
pub const CC_DWIDTH_BYTE: u32 = 0x0000_0000;

/// `CC.DWIDTH`: 16-bit data items.
pub const CC_DWIDTH_HALFWORD: u32 = 0x0000_0800;

/// `CC.DWIDTH`: 32-bit data items.
pub const CC_DWIDTH_WORD: u32 = 0x0000_1000;

/// `CC.SAM`: the source address is incremented.
const CC_SRC_INCREMENTED: u32 = 0x0001_0000;

/// `CC.DAM`: the destination address is incremented.
const CC_DST_INCREMENTED: u32 = 0x0004_0000;

/// Position of `CC.PERID`, the peripheral's request line.
const CC_PERID_SHIFT: u32 = 24;

/// `CIE.BIE`: interrupt on end of block.
const CIE_BIE: u32 = 0x01;

/// `CIE.RBIE`: interrupt on a read bus error.
const CIE_RBIE: u32 = 0x10;

/// `CIE.WBIE`: interrupt on a write bus error.
const CIE_WBIE: u32 = 0x20;

/// `CIE.ROIE`: interrupt on a request overflow error.
const CIE_ROIE: u32 = 0x40;

/// A register of one channel that is written to.
#[derive(Clone, Copy, Debug, PartialEq, Eq, Structural)]
pub enum ChannelRegister {
    /// Interrupt enable.
    Cie,
    /// Interrupt disable.
    Cid,
    /// Source address.
    Csa,
    /// Destination address.
    Cda,
    /// Next descriptor address.
    Cnda,
    /// Next descriptor control.
    Cndc,
    /// Microblock control: the number of data items in the microblock.
    Cubc,
    /// Channel configuration.
    Cc,
}

/// A register of the controller that is written to.
#[derive(Clone, Copy, Debug, PartialEq, Eq, Structural)]
pub enum Register {
    /// Global channel enable: a one starts the channel of that number.
    Ge,
    /// Global channel disable: a one stops the channel of that number.
    Gd,
    /// A register of the channel with the given number.
    Channel(u8, ChannelRegister),
}

/// One thing to be done to the hardware.
#[derive(Clone, Copy, Debug, PartialEq, Eq, Structural)]
pub enum Command {
    /// Turn on the clock of the XDMAC peripheral.
    EnableClock,
    /// Read the interrupt status register of the channel with the given
    /// number, which clears it, and drop what was read.
    ReadStatus(u8),
    /// Write a word to a register.
    Write(Register, u32),
}

/// The word that has the bit of channel `index` set and no other.
pub open spec fn channel_mask(index: u8) -> u32 {
    1u32 << index
}

/// The value of a flag that weighs `weight` in its register.
pub open spec fn weigh(set: bool, weight: int) -> int {
    if set {
        weight
    } else {
        0
    }
}

/// The channel configuration word with the given fields: synchronised with a
/// peripheral or not, flowing from the peripheral or not, the width of an
/// item, which of the two addresses moves, and the request line.
pub open spec fn cc_word(
    peripheral: bool,
    per_to_mem: bool,
    width: DataWidth,
    src_moves: bool,
    dst_moves: bool,
    perid: u8,
) -> u32 {
    (weigh(peripheral, 0x1) + weigh(per_to_mem, 0x10) + width.code() * 0x800 + weigh(
        src_moves,
        0x1_0000,
    ) + weigh(dst_moves, 0x4_0000) + perid * 0x100_0000) as u32
}

/// The configuration word of a memory-to-memory copy.
pub open spec fn cc_mem_to_mem_word(width: DataWidth) -> u32 {
    cc_word(false, false, width, true, true, 0)
}

/// The configuration word of a memory-to-peripheral transfer.
pub open spec fn cc_tx_word(width: DataWidth, perid: u8) -> u32 {
    cc_word(true, false, width, true, false, perid)
}

/// The configuration word of a peripheral-to-memory transfer.
pub open spec fn cc_rx_word(width: DataWidth, perid: u8) -> u32 {
    cc_word(true, true, width, false, true, perid)
}

/// The interrupts that are on during a transfer: end of block, read bus
/// error, write bus error, and request overflow.
pub open spec fn cie_word() -> u32 {
    0x71
}

/// Disables channel `index`.
pub open spec fn disable_commands(index: u8) -> Seq<Command> {
    seq![Command::Write(Register::Gd, channel_mask(index))]
}

/// Enables channel `index`.
pub open spec fn enable_commands(index: u8) -> Seq<Command> {
    seq![Command::Write(Register::Ge, channel_mask(index))]
}

/// Stops channel `index`, masks and drops its pending interrupts, and sets it
/// up for one microblock of `items` items from `src` to `dst`.
pub open spec fn configure_commands(index: u8, src: u32, dst: u32, items: u32, cc: u32) -> Seq<
    Command,
> {
    seq![
        Command::Write(Register::Gd, channel_mask(index)),
        Command::Write(Register::Channel(index, ChannelRegister::Cid), u32::MAX),
        Command::ReadStatus(index),
        Command::Write(Register::Channel(index, ChannelRegister::Csa), src),
        Command::Write(Register::Channel(index, ChannelRegister::Cda), dst),
        Command::Write(Register::Channel(index, ChannelRegister::Cnda), 0),
        Command::Write(Register::Channel(index, ChannelRegister::Cndc), 0),
        Command::Write(Register::Channel(index, ChannelRegister::Cubc), items),
        Command::Write(Register::Channel(index, ChannelRegister::Cc), cc),
        Command::Write(Register::Channel(index, ChannelRegister::Cie), cie_word()),
    ]
}

/// Sets channel `index` up and then starts it.
pub open spec fn start_commands(index: u8, src: u32, dst: u32, items: u32, cc: u32) -> Seq<
    Command,
> {
    configure_commands(index, src, dst, items, cc) + enable_commands(index)
}

/// Returns the configuration word of a memory-to-memory copy.
pub(crate) fn cc_mem_to_mem(width: DataWidth) -> (cc: u32)
    ensures
        cc == cc_mem_to_mem_word(width),
{
    let w: u32 = width.bits();
    assert(w | CC_SRC_INCREMENTED | CC_DST_INCREMENTED == w + 0x5_0000) by (bit_vector)
        requires
            w == 0 || w == 0x800 || w == 0x1000,
    ;
    w | CC_SRC_INCREMENTED | CC_DST_INCREMENTED
}

/// Returns the configuration word of a memory-to-peripheral transfer.
pub(crate) fn cc_tx(width: DataWidth, perid: u8) -> (cc: u32)
    ensures
        cc == cc_tx_word(width, perid),
{
    let w: u32 = width.bits();
    let p: u32 = perid as u32;
    assert(CC_TYPE_PERIPHERAL | w | CC_SRC_INCREMENTED | (p << CC_PERID_SHIFT) == w + 0x1_0001 + p
        * 0x100_0000) by (bit_vector)
        requires
            w == 0 || w == 0x800 || w == 0x1000,
            p < 256,
    ;
    CC_TYPE_PERIPHERAL | w | CC_SRC_INCREMENTED | (p << CC_PERID_SHIFT)
}

/// Returns the configuration word of a peripheral-to-memory transfer.
pub(crate) fn cc_rx(width: DataWidth, perid: u8) -> (cc: u32)
    ensures
        cc == cc_rx_word(width, perid),
{
    let w: u32 = width.bits();
    let p: u32 = perid as u32;
    assert(CC_TYPE_PERIPHERAL | CC_DSYNC_PER_TO_MEM | w | CC_DST_INCREMENTED | (p
        << CC_PERID_SHIFT) == w + 0x4_0011 + p * 0x100_0000) by (bit_vector)
        requires
            w == 0 || w == 0x800 || w == 0x1000,
            p < 256,
    ;
    CC_TYPE_PERIPHERAL | CC_DSYNC_PER_TO_MEM | w | CC_DST_INCREMENTED | (p << CC_PERID_SHIFT)
}

/// Returns the interrupts that are on during a transfer.
pub(crate) fn cie() -> (word: u32)
    ensures
        word == cie_word(),
{
    assert(CIE_BIE | CIE_RBIE | CIE_WBIE | CIE_ROIE == 0x71) by (bit_vector);
    CIE_BIE | CIE_RBIE | CIE_WBIE | CIE_ROIE
}

} // verus!
