//! What each call does, told from the outside: by the numbers that reach the
//! registers, and by how what one call takes relates to what another gives.

use crate::buffer::{slice_addr, Region};
use crate::channel::{Channel, ChannelSet};
use crate::config::{DataWidth, TransferConfig};
use crate::controller::{memcpy_commands, Xdmac, XdmacState};
use crate::descriptor::{
    DescriptorView0, DescriptorView1, DescriptorView2, DescriptorView3, XdmacDescriptorControl,
};
use crate::error::{validate_len, DmaError};
use crate::peripheral::{full_duplex_commands, rx_commands, tx_commands};
use crate::registers::{
    cc_mem_to_mem_word, cc_rx_word, cc_tx_word, channel_mask, start_commands, ChannelRegister,
    Command, Register,
};
use crate::request::{SpiDma, UsartDma};
use crate::spi::Spi;
use crate::status::{ChannelStatus, TransferStatus};
use crate::transfer::{
    FullDuplex, MemToMem, PeripheralRx, PeripheralTx, StatusReading, Transfer, TransferState,
};
use crate::uart;
use crate::usart::UsartMode;
use vstd::arithmetic::power2::pow2;
use vstd::prelude::*;

verus! {

// ---------------------------------------------------------------------------
// Words
// ---------------------------------------------------------------------------

/// The word has bit `n` set and no other.
pub open spec fn is_bit(word: u32, n: u8) -> bool {
    word as nat == pow2(n as nat)
}

/// The flags are the seven low bits of the word.
pub open spec fn are_flags_of(status: ChannelStatus, bits: u32) -> bool {
    &&& status.block_complete == (bits % 2 == 1)
    &&& status.linked_list_complete == (bits / 2 % 2 == 1)
    &&& status.disabled == (bits / 4 % 2 == 1)
    &&& status.flushed == (bits / 8 % 2 == 1)
    &&& status.read_bus_error == (bits / 16 % 2 == 1)
    &&& status.write_bus_error == (bits / 32 % 2 == 1)
    &&& status.request_overflow == (bits / 64 % 2 == 1)
}

/// The word has the bit of the end of the block.
pub open spec fn has_end(bits: u32) -> bool {
    bits % 2 == 1
}

/// The word has the bit of an error: of a read bus error, a write bus error,
/// or a request overflow.
pub open spec fn has_error(bits: u32) -> bool {
    bits / 16 % 8 != 0
}

/// `items` is how many whole items of the width there are in `len` bytes.
pub open spec fn counts(items: u32, len: nat, width: DataWidth) -> bool {
    match width {
        DataWidth::Byte => items == len,
        DataWidth::HalfWord => 2 * items <= len < 2 * items + 2,
        DataWidth::Word => 4 * items <= len < 4 * items + 4,
    }
}

/// Between what data moves: memory alone, or memory and the peripheral of a
/// request line.
pub enum Route {
    /// From memory to memory.
    Memory,
    /// From memory to the peripheral of the request line.
    ToPeripheral(u8),
    /// From the peripheral of the request line to memory.
    FromPeripheral(u8),
}

/// The channel configuration word says the width of an item in bits 11 and 12,
/// the route in bits 0, 4 and 24 to 31, and in bits 16 to 19 that the address
/// of memory moves and that of a register does not. It says nothing else.
pub open spec fn configures(cc: u32, width: DataWidth, route: Route) -> bool {
    &&& cc / 0x800 % 4 == match width {
        DataWidth::Byte => 0u32,
        DataWidth::HalfWord => 1u32,
        DataWidth::Word => 2u32,
    }
    &&& match route {
        Route::Memory => {
            &&& cc % 2 == 0
            &&& cc / 0x10 % 2 == 0
            &&& cc / 0x1_0000 % 4 == 1
            &&& cc / 0x4_0000 % 4 == 1
            &&& cc / 0x100_0000 == 0
        },
        Route::ToPeripheral(line) => {
            &&& cc % 2 == 1
            &&& cc / 0x10 % 2 == 0
            &&& cc / 0x1_0000 % 4 == 1
            &&& cc / 0x4_0000 % 4 == 0
            &&& cc / 0x100_0000 == line
        },
        Route::FromPeripheral(line) => {
            &&& cc % 2 == 1
            &&& cc / 0x10 % 2 == 1
            &&& cc / 0x1_0000 % 4 == 0
            &&& cc / 0x4_0000 % 4 == 1
            &&& cc / 0x100_0000 == line
        },
    }
    &&& cc / 0x2 % 8 == 0
    &&& cc / 0x20 % 64 == 0
    &&& cc / 0x2000 % 8 == 0
    &&& cc / 0x10_0000 % 16 == 0
}

proof fn lemma_mask_is_bit(n: u8)
    requires
        n < 24,
    ensures
        is_bit(channel_mask(n), n),
{
    vstd::arithmetic::power2::lemma2_to64();
    vstd::arithmetic::power2::lemma_pow2_strictly_increases(n as nat, 24);
    vstd::bits::lemma_u32_shl_is_mul(1, n as u32);
}

proof fn lemma_bits_are_apart(n: u8, m: u8)
    requires
        n != m,
    ensures
        pow2(n as nat) != pow2(m as nat),
{
    if n < m {
        vstd::arithmetic::power2::lemma_pow2_strictly_increases(n as nat, m as nat);
    } else {
        vstd::arithmetic::power2::lemma_pow2_strictly_increases(m as nat, n as nat);
    }
}

// ---------------------------------------------------------------------------
// Commands
// ---------------------------------------------------------------------------

/// The queue has grown at its end, and the leases are as they were.
pub open spec fn only_queues(pre: XdmacState, post: XdmacState) -> bool {
    &&& post.allocated == pre.allocated
    &&& pre.commands.len() <= post.commands.len()
    &&& post.commands.subrange(0, pre.commands.len() as int) == pre.commands
}

/// Nothing has changed.
pub open spec fn same(pre: XdmacState, post: XdmacState) -> bool {
    post.allocated == pre.allocated && post.commands == pre.commands
}

/// The commands by which the queue has grown.
pub open spec fn queued(pre: XdmacState, post: XdmacState) -> Seq<Command> {
    post.commands.subrange(pre.commands.len() as int, post.commands.len() as int)
}

/// The command is an access to a register of channel `n`.
pub open spec fn accesses(command: Command, n: u8) -> bool {
    match command {
        Command::ReadStatus(number) => number == n,
        Command::Write(Register::Channel(number, _), _) => number == n,
        _ => false,
    }
}

/// The command switches channel `n`, and no other, by writing to `register`.
pub open spec fn switches(command: Command, register: Register, n: u8) -> bool {
    command matches Command::Write(at, word) && at == register && is_bit(word, n)
}

/// Each write to `register` puts `word` there, and there is one among the
/// first `upto` commands.
pub open spec fn gets(commands: Seq<Command>, upto: int, register: Register, word: u32) -> bool {
    &&& forall|k: int|
        0 <= k < commands.len() ==> ((#[trigger] commands[k]) matches Command::Write(at, value)
            ==> at == register ==> value == word)
    &&& exists|k: int|
        0 <= k < upto && k < commands.len() && #[trigger] commands[k] == Command::Write(
            register,
            word,
        )
}

/// Channel `n` is stopped, its interrupts are masked and its status is dropped,
/// in this order, before anything else is done to it, and not again after.
pub open spec fn is_cleared_first(commands: Seq<Command>, n: u8) -> bool {
    exists|at: int|
        {
            &&& 0 <= at
            &&& at + 2 < commands.len()
            &&& #[trigger] switches(commands[at], Register::Gd, n)
            &&& commands[at + 1] == Command::Write(
                Register::Channel(n, ChannelRegister::Cid),
                u32::MAX,
            )
            &&& commands[at + 2] == Command::ReadStatus(n)
            &&& forall|k: int| 0 <= k < at ==> !accesses(#[trigger] commands[k], n)
            &&& forall|k: int|
                at + 2 < k < commands.len() ==> !switches(
                    #[trigger] commands[k],
                    Register::Gd,
                    n,
                )
            &&& forall|k: int|
                at + 2 < k < commands.len() ==> !masks_interrupts(#[trigger] commands[k], n)
        }
}

/// The command turns interrupts of channel `n` off.
pub open spec fn masks_interrupts(command: Command, n: u8) -> bool {
    command matches Command::Write(at, _) && at == Register::Channel(n, ChannelRegister::Cid)
}

/// Among the first `upto` commands channel `n` is told to move the whole items
/// of `len` bytes from `src` to `dst` over the route as one microblock, with
/// no descriptor to follow, and to report its end and all errors. No command
/// tells it otherwise.
pub open spec fn is_set_up(
    commands: Seq<Command>,
    upto: int,
    n: u8,
    src: u32,
    dst: u32,
    len: nat,
    width: DataWidth,
    route: Route,
) -> bool {
    &&& is_cleared_first(commands, n)
    &&& gets(commands, upto, Register::Channel(n, ChannelRegister::Csa), src)
    &&& gets(commands, upto, Register::Channel(n, ChannelRegister::Cda), dst)
    &&& gets(commands, upto, Register::Channel(n, ChannelRegister::Cnda), 0)
    &&& gets(commands, upto, Register::Channel(n, ChannelRegister::Cndc), 0)
    &&& gets(commands, upto, Register::Channel(n, ChannelRegister::Cie), 0x71)
    &&& exists|items: u32|
        counts(items, len, width) && #[trigger] gets(
            commands,
            upto,
            Register::Channel(n, ChannelRegister::Cubc),
            items,
        )
    &&& exists|cc: u32|
        configures(cc, width, route) && #[trigger] gets(
            commands,
            upto,
            Register::Channel(n, ChannelRegister::Cc),
            cc,
        )
}

/// The commands set channel `n` up, as [`is_set_up`] says, and then start it.
/// They touch nothing but the channel.
pub open spec fn is_run(
    commands: Seq<Command>,
    n: u8,
    src: u32,
    dst: u32,
    len: nat,
    width: DataWidth,
    route: Route,
) -> bool {
    let last = commands.len() - 1;
    &&& last > 0
    &&& is_set_up(commands, last, n, src, dst, len, width, route)
    &&& switches(commands[last], Register::Ge, n)
    &&& forall|k: int|
        0 <= k < last ==> accesses(#[trigger] commands[k], n) || switches(
            commands[k],
            Register::Gd,
            n,
        )
}

/// The transfer has just begun on channel `n` alone.
pub open spec fn has_begun(transfer: TransferState, n: u8, secondary: Option<u8>) -> bool {
    &&& transfer.primary == n
    &&& transfer.secondary == secondary
    &&& !transfer.primary_done
    &&& !transfer.secondary_done
    &&& !transfer.failed
}

proof fn lemma_configures(width: DataWidth, perid: u8)
    ensures
        configures(cc_mem_to_mem_word(width), width, Route::Memory),
        configures(cc_tx_word(width, perid), width, Route::ToPeripheral(perid)),
        configures(cc_rx_word(width, perid), width, Route::FromPeripheral(perid)),
{
    let code: u32 = match width {
        DataWidth::Byte => 0,
        DataWidth::HalfWord => 1,
        DataWidth::Word => 2,
    };
    let line: u32 = perid as u32;
    lemma_fields(cc_mem_to_mem_word(width), code, 0, 0x5_0000);
    lemma_fields(cc_tx_word(width, perid), code, line, 0x1_0001);
    lemma_fields(cc_rx_word(width, perid), code, line, 0x4_0011);
}

proof fn lemma_fields(cc: u32, code: u32, line: u32, rest: u32)
    requires
        code < 3,
        line < 256,
        rest == 0x5_0000 || rest == 0x1_0001 || rest == 0x4_0011,
        cc == rest + code * 0x800 + line * 0x100_0000,
    ensures
        cc / 0x800 % 4 == code,
        cc / 0x100_0000 == line,
        cc % 2 == rest % 2,
        cc / 0x10 % 2 == rest / 0x10 % 2,
        cc / 0x1_0000 % 4 == rest / 0x1_0000 % 4,
        cc / 0x4_0000 % 4 == rest / 0x4_0000 % 4,
        cc / 0x2 % 8 == 0,
        cc / 0x20 % 64 == 0,
        cc / 0x2000 % 8 == 0,
        cc / 0x10_0000 % 16 == 0,
{
    assert({
        &&& cc / 0x800 % 4 == code
        &&& cc / 0x100_0000 == line
        &&& cc % 2 == rest % 2
        &&& cc / 0x10 % 2 == rest / 0x10 % 2
        &&& cc / 0x1_0000 % 4 == rest / 0x1_0000 % 4
        &&& cc / 0x4_0000 % 4 == rest / 0x4_0000 % 4
        &&& cc / 0x2 % 8 == 0
        &&& cc / 0x20 % 64 == 0
        &&& cc / 0x2000 % 8 == 0
        &&& cc / 0x10_0000 % 16 == 0
    }) by (bit_vector)
        requires
            code < 3,
            line < 256,
            rest == 0x5_0000 || rest == 0x1_0001 || rest == 0x4_0011,
            cc == rest + code * 0x800 + line * 0x100_0000,
    ;
}

proof fn lemma_gets(commands: Seq<Command>, upto: int, register: Register, word: u32, at: int)
    requires
        0 <= at < upto <= commands.len(),
        commands[at] == Command::Write(register, word),
        forall|k: int|
            0 <= k < commands.len() && k != at ==> !(#[trigger] commands[k] matches Command::Write(
                other,
                _,
            ) && other == register),
    ensures
        gets(commands, upto, register, word),
{
}

/// The ten commands from `at` on set channel `n` up.
spec fn is_block(
    commands: Seq<Command>,
    at: int,
    n: u8,
    src: u32,
    dst: u32,
    items: u32,
    cc: u32,
) -> bool {
    &&& commands[at] == Command::Write(Register::Gd, channel_mask(n))
    &&& commands[at + 1] == Command::Write(Register::Channel(n, ChannelRegister::Cid), u32::MAX)
    &&& commands[at + 2] == Command::ReadStatus(n)
    &&& commands[at + 3] == Command::Write(Register::Channel(n, ChannelRegister::Csa), src)
    &&& commands[at + 4] == Command::Write(Register::Channel(n, ChannelRegister::Cda), dst)
    &&& commands[at + 5] == Command::Write(Register::Channel(n, ChannelRegister::Cnda), 0)
    &&& commands[at + 6] == Command::Write(Register::Channel(n, ChannelRegister::Cndc), 0)
    &&& commands[at + 7] == Command::Write(Register::Channel(n, ChannelRegister::Cubc), items)
    &&& commands[at + 8] == Command::Write(Register::Channel(n, ChannelRegister::Cc), cc)
    &&& commands[at + 9] == Command::Write(Register::Channel(n, ChannelRegister::Cie), 0x71)
}

proof fn lemma_block(
    commands: Seq<Command>,
    at: int,
    upto: int,
    n: u8,
    src: u32,
    dst: u32,
    len: nat,
    width: DataWidth,
    route: Route,
    items: u32,
    cc: u32,
)
    requires
        n < 24,
        0 <= at,
        at + 10 <= upto <= commands.len(),
        is_block(commands, at, n, src, dst, items, cc),
        forall|k: int|
            0 <= k < commands.len() && !(at <= k < at + 10) ==> !accesses(
                #[trigger] commands[k],
                n,
            ) && !switches(commands[k], Register::Gd, n),
        counts(items, len, width),
        configures(cc, width, route),
    ensures
        is_set_up(commands, upto, n, src, dst, len, width, route),
{
    lemma_mask_is_bit(n);
    assert(switches(commands[at], Register::Gd, n));
    lemma_gets(commands, upto, Register::Channel(n, ChannelRegister::Csa), src, at + 3);
    lemma_gets(commands, upto, Register::Channel(n, ChannelRegister::Cda), dst, at + 4);
    lemma_gets(commands, upto, Register::Channel(n, ChannelRegister::Cnda), 0, at + 5);
    lemma_gets(commands, upto, Register::Channel(n, ChannelRegister::Cndc), 0, at + 6);
    lemma_gets(commands, upto, Register::Channel(n, ChannelRegister::Cubc), items, at + 7);
    lemma_gets(commands, upto, Register::Channel(n, ChannelRegister::Cc), cc, at + 8);
    lemma_gets(commands, upto, Register::Channel(n, ChannelRegister::Cie), 0x71, at + 9);
}

proof fn lemma_run(
    n: u8,
    src: u32,
    dst: u32,
    len: nat,
    width: DataWidth,
    route: Route,
    items: u32,
    cc: u32,
)
    requires
        n < 24,
        counts(items, len, width),
        configures(cc, width, route),
    ensures
        is_run(start_commands(n, src, dst, items, cc), n, src, dst, len, width, route),
{
    let commands = start_commands(n, src, dst, items, cc);
    lemma_mask_is_bit(n);
    lemma_block(commands, 0, 10, n, src, dst, len, width, route, items, cc);
}

proof fn lemma_issue(pre: XdmacState, commands: Seq<Command>)
    ensures
        only_queues(pre, pre.issue(commands)),
        queued(pre, pre.issue(commands)) == commands,
{
    let post = pre.issue(commands);
    assert(post.commands.subrange(0, pre.commands.len() as int) =~= pre.commands);
    assert(queued(pre, post) =~= commands);
}

// ---------------------------------------------------------------------------
// Leases
// ---------------------------------------------------------------------------

/// A new manager has leased nothing. It turns the clock on and then stops all
/// of the channels 0 to 23.
pub proof fn making_a_manager(xdmac: Xdmac)
    requires
        call_ensures(Xdmac::new, (), xdmac),
    ensures
        forall|n: u8| !xdmac@.allocated.contains(n),
        xdmac@.commands.len() == 2,
        xdmac@.commands[0] == Command::EnableClock,
        xdmac@.commands[1] == Command::Write(Register::Gd, 0x00ff_ffff),
{
}

/// What is taken out of the queue is what was in it, and the queue is empty.
pub proof fn taking_the_commands(xdmac: &mut Xdmac, commands: Vec<Command>)
    requires
        call_ensures(Xdmac::take_commands, (xdmac,), commands),
    ensures
        commands@ == old(xdmac)@.commands,
        final(xdmac)@.commands.len() == 0,
        final(xdmac)@.allocated == old(xdmac)@.allocated,
{
}

/// An allocation leases the lowest of the channels 0 to 23 that is not leased,
/// and is refused when there is none. It does nothing to the hardware.
pub proof fn allocating(xdmac: &mut Xdmac, leased: Result<Channel, DmaError>)
    requires
        call_ensures(Xdmac::alloc_channel, (xdmac,), leased),
    ensures
        final(xdmac)@.commands == old(xdmac)@.commands,
        match leased {
            Ok(channel) => {
                let n = channel@;
                &&& n < 24
                &&& !old(xdmac)@.allocated.contains(n)
                &&& forall|lower: u8| lower < n ==> old(xdmac)@.allocated.contains(lower)
                &&& forall|m: u8|
                    #![trigger final(xdmac)@.allocated.contains(m)]
                    #![trigger old(xdmac)@.allocated.contains(m)]
                    final(xdmac)@.allocated.contains(m) <==> old(xdmac)@.allocated.contains(m) || m
                        == n
            },
            Err(error) => {
                &&& error == DmaError::NoChannel
                &&& forall|m: u8| m < 24 ==> old(xdmac)@.allocated.contains(m)
                &&& final(xdmac)@.allocated == old(xdmac)@.allocated
            },
        },
{
}

/// Releasing a leased channel ends that lease and no other, and stops the
/// channel by a write that has its bit and no other. Releasing one that is not
/// leased is refused and changes nothing.
pub proof fn releasing(xdmac: &mut Xdmac, channel: Channel, released: Result<(), DmaError>)
    requires
        call_ensures(Xdmac::release_channel, (xdmac, channel), released),
        channel@ < 24,
    ensures
        released is Ok <==> old(xdmac)@.allocated.contains(channel@),
        match released {
            Ok(_) => {
                let commands = final(xdmac)@.commands;
                let before = old(xdmac)@.commands;
                &&& commands.len() == before.len() + 1
                &&& commands.subrange(0, before.len() as int) == before
                &&& commands[before.len() as int] matches Command::Write(Register::Gd, word)
                    && is_bit(word, channel@)
                &&& forall|m: u8|
                    #![trigger final(xdmac)@.allocated.contains(m)]
                    #![trigger old(xdmac)@.allocated.contains(m)]
                    final(xdmac)@.allocated.contains(m) <==> old(xdmac)@.allocated.contains(m) && m
                        != channel@
            },
            Err(error) => error == DmaError::UnallocatedChannel && same(
                old(xdmac)@,
                final(xdmac)@,
            ),
        },
{
    lemma_mask_is_bit(channel@);
    if released is Ok {
        assert(final(xdmac)@.commands.subrange(0, old(xdmac)@.commands.len() as int)
            =~= old(xdmac)@.commands);
    }
}

/// A channel number is what the lease was made for, and it is below 24.
pub proof fn numbering(channel: &Channel, index: u8)
    requires
        call_ensures(Channel::index, (channel,), index),
    ensures
        index == channel@,
        index < 24,
{
}

// ---------------------------------------------------------------------------
// Copies
// ---------------------------------------------------------------------------

/// A copy is refused when the source is too long for a microblock, else when
/// the destination is shorter, and not else; a refusal changes nothing. A copy
/// that is not refused has the channel read the source and write the
/// destination, whatever the length and the width, and touches nothing but the
/// channel. The transfer is one on that channel alone.
pub proof fn copying<'a>(
    xdmac: &mut Xdmac,
    channel: Channel,
    src: Region,
    dst: Region,
    config: TransferConfig,
    started: Result<Transfer<'a, MemToMem>, DmaError>,
)
    requires
        call_ensures(Xdmac::start_memcpy, (xdmac, channel, src, dst, config), started),
        channel@ < 24,
    ensures
        match started {
            Ok(transfer) => {
                &&& src.len <= 0xff_ffff
                &&& src.len <= dst.len
                &&& only_queues(old(xdmac)@, final(xdmac)@)
                &&& is_run(
                    queued(old(xdmac)@, final(xdmac)@),
                    channel@,
                    src.addr,
                    dst.addr,
                    src.len as nat,
                    config.width,
                    Route::Memory,
                )
                &&& has_begun(transfer@, channel@, None)
            },
            Err(error) => {
                &&& same(old(xdmac)@, final(xdmac)@)
                &&& src.len > 0xff_ffff ==> error == DmaError::LengthTooLarge
                &&& src.len <= 0xff_ffff ==> dst.len < src.len && error == DmaError::BufferTooSmall
            },
        },
{
    if started is Ok {
        lemma_memcpy_run(channel@, src, dst, config);
        lemma_issue(old(xdmac)@, memcpy_commands(channel@, src, dst, config));
    }
}

proof fn lemma_memcpy_run(n: u8, src: Region, dst: Region, config: TransferConfig)
    requires
        n < 24,
        src.len <= 0xff_ffff,
    ensures
        is_run(
            memcpy_commands(n, src, dst, config),
            n,
            src.addr,
            dst.addr,
            src.len as nat,
            config.width,
            Route::Memory,
        ),
{
    lemma_configures(config.width, 0);
    lemma_run(
        n,
        src.addr,
        dst.addr,
        src.len as nat,
        config.width,
        Route::Memory,
        config.width.items(src.len as nat) as u32,
        cc_mem_to_mem_word(config.width),
    );
}

/// The same of a copy between slices: what the channel reads is where `src`
/// lies, and what it writes is where `dst` lies.
pub proof fn copying_slices<'a>(
    xdmac: &mut Xdmac,
    channel: Channel,
    src: &'a [u8],
    dst: &'a mut [u8],
    config: TransferConfig,
    started: Result<Transfer<'a, MemToMem>, DmaError>,
)
    requires
        call_ensures(Xdmac::memcpy, (xdmac, channel, src, dst, config), started),
        channel@ < 24,
    ensures
        final(dst)@.len() == old(dst)@.len(),
        match started {
            Ok(transfer) => {
                &&& src@.len() <= 0xff_ffff
                &&& src@.len() <= old(dst)@.len()
                &&& only_queues(old(xdmac)@, final(xdmac)@)
                &&& exists|from: u32, to: u32|
                    {
                        &&& #[trigger] is_run(
                            queued(old(xdmac)@, final(xdmac)@),
                            channel@,
                            from,
                            to,
                            src@.len(),
                            config.width,
                            Route::Memory,
                        )
                        &&& call_ensures(slice_addr, (src,), from)
                        &&& call_ensures(slice_addr, (&*old(dst),), to)
                    }
                &&& has_begun(transfer@, channel@, None)
            },
            Err(error) => {
                &&& same(old(xdmac)@, final(xdmac)@)
                &&& final(dst)@ == old(dst)@
                &&& src@.len() > 0xff_ffff ==> error == DmaError::LengthTooLarge
                &&& src@.len() <= 0xff_ffff ==> old(dst)@.len() < src@.len() && error
                    == DmaError::BufferTooSmall
            },
        },
{
    let (from, to): (Region, Region) = choose|from: Region, to: Region| #[trigger]
        crate::controller::memcpy_starts(
            old(xdmac)@,
            final(xdmac)@,
            channel@,
            from,
            to,
            config,
            started,
        ) && from.len == src@.len() && to.len == old(dst)@.len() && call_ensures(
            slice_addr,
            (src,),
            from.addr,
        ) && call_ensures(slice_addr, (&*old(dst),), to.addr);
    if started is Ok {
        lemma_memcpy_run(channel@, from, to, config);
        lemma_issue(old(xdmac)@, memcpy_commands(channel@, from, to, config));
    }
}

// ---------------------------------------------------------------------------
// Transfers with peripherals
// ---------------------------------------------------------------------------

/// A transmission is refused when it is too long for a microblock, and not
/// else; a refusal changes nothing. One that is not refused has the channel
/// read the bytes and write the data register, paced by the request line,
/// whatever the length and the width, and touches nothing but the channel.
pub proof fn sending<'a>(
    xdmac: &mut Xdmac,
    channel: Channel,
    bytes: Region,
    register: u32,
    perid: u8,
    config: TransferConfig,
    started: Result<Transfer<'a, PeripheralTx>, DmaError>,
)
    requires
        call_ensures(Xdmac::start_tx, (xdmac, channel, bytes, register, perid, config), started),
        channel@ < 24,
    ensures
        match started {
            Ok(transfer) => {
                &&& bytes.len <= 0xff_ffff
                &&& only_queues(old(xdmac)@, final(xdmac)@)
                &&& is_run(
                    queued(old(xdmac)@, final(xdmac)@),
                    channel@,
                    bytes.addr,
                    register,
                    bytes.len as nat,
                    config.width,
                    Route::ToPeripheral(perid),
                )
                &&& has_begun(transfer@, channel@, None)
            },
            Err(error) => {
                &&& same(old(xdmac)@, final(xdmac)@)
                &&& bytes.len > 0xff_ffff
                &&& error == DmaError::LengthTooLarge
            },
        },
{
    if started is Ok {
        lemma_tx_run(channel@, bytes, register, perid, config);
        lemma_issue(old(xdmac)@, tx_commands(channel@, bytes, register, perid, config));
    }
}

/// A reception is refused when it is too long for a microblock, and not else;
/// a refusal changes nothing. One that is not refused has the channel read the
/// data register and write the bytes, paced by the request line, whatever the
/// length and the width, and touches nothing but the channel.
pub proof fn receiving<'a>(
    xdmac: &mut Xdmac,
    channel: Channel,
    bytes: Region,
    register: u32,
    perid: u8,
    config: TransferConfig,
    started: Result<Transfer<'a, PeripheralRx>, DmaError>,
)
    requires
        call_ensures(Xdmac::start_rx, (xdmac, channel, bytes, register, perid, config), started),
        channel@ < 24,
    ensures
        match started {
            Ok(transfer) => {
                &&& bytes.len <= 0xff_ffff
                &&& only_queues(old(xdmac)@, final(xdmac)@)
                &&& is_run(
                    queued(old(xdmac)@, final(xdmac)@),
                    channel@,
                    register,
                    bytes.addr,
                    bytes.len as nat,
                    config.width,
                    Route::FromPeripheral(perid),
                )
                &&& has_begun(transfer@, channel@, None)
            },
            Err(error) => {
                &&& same(old(xdmac)@, final(xdmac)@)
                &&& bytes.len > 0xff_ffff
                &&& error == DmaError::LengthTooLarge
            },
        },
{
    if started is Ok {
        lemma_rx_run(channel@, bytes, register, perid, config);
        lemma_issue(old(xdmac)@, rx_commands(channel@, bytes, register, perid, config));
    }
}

proof fn lemma_tx_run(n: u8, bytes: Region, register: u32, perid: u8, config: TransferConfig)
    requires
        n < 24,
        bytes.len <= 0xff_ffff,
    ensures
        is_run(
            tx_commands(n, bytes, register, perid, config),
            n,
            bytes.addr,
            register,
            bytes.len as nat,
            config.width,
            Route::ToPeripheral(perid),
        ),
{
    lemma_configures(config.width, perid);
    lemma_run(
        n,
        bytes.addr,
        register,
        bytes.len as nat,
        config.width,
        Route::ToPeripheral(perid),
        config.width.items(bytes.len as nat) as u32,
        cc_tx_word(config.width, perid),
    );
}

proof fn lemma_rx_run(n: u8, bytes: Region, register: u32, perid: u8, config: TransferConfig)
    requires
        n < 24,
        bytes.len <= 0xff_ffff,
    ensures
        is_run(
            rx_commands(n, bytes, register, perid, config),
            n,
            register,
            bytes.addr,
            bytes.len as nat,
            config.width,
            Route::FromPeripheral(perid),
        ),
{
    lemma_configures(config.width, perid);
    lemma_run(
        n,
        register,
        bytes.addr,
        bytes.len as nat,
        config.width,
        Route::FromPeripheral(perid),
        config.width.items(bytes.len as nat) as u32,
        cc_rx_word(config.width, perid),
    );
}

/// What [`sending`] says, of a slice, the transmit register of an SPI and its
/// transmit line.
pub proof fn sending_by_spi<'a, M: SpiDma>(
    xdmac: &mut Xdmac,
    channel: Channel,
    spi: &'a mut Spi<M>,
    bytes: &'a [u8],
    config: TransferConfig,
    started: Result<Transfer<'a, PeripheralTx>, DmaError>,
)
    requires
        call_ensures(Xdmac::spi_tx::<M>, (xdmac, channel, spi, bytes, config), started),
        channel@ < 24,
    ensures
        *final(spi) == *old(spi),
        match started {
            Ok(transfer) => {
                &&& bytes@.len() <= 0xff_ffff
                &&& only_queues(old(xdmac)@, final(xdmac)@)
                &&& exists|from: u32|
                    {
                        &&& #[trigger] is_run(
                            queued(old(xdmac)@, final(xdmac)@),
                            channel@,
                            from,
                            old(spi).tdr(),
                            bytes@.len(),
                            config.width,
                            Route::ToPeripheral(M::TX_PERID),
                        )
                        &&& call_ensures(slice_addr, (bytes,), from)
                    }
                &&& has_begun(transfer@, channel@, None)
            },
            Err(error) => {
                &&& same(old(xdmac)@, final(xdmac)@)
                &&& bytes@.len() > 0xff_ffff
                &&& error == DmaError::LengthTooLarge
            },
        },
{
    if started is Ok {
        let region: Region = choose|region: Region| #[trigger]
            crate::peripheral::tx_starts(
                old(xdmac)@,
                final(xdmac)@,
                channel@,
                region,
                old(spi).tdr(),
                M::TX_PERID,
                config,
                started,
            ) && region.len == bytes@.len() && call_ensures(slice_addr, (bytes,), region.addr);
        lemma_tx_run(channel@, region, old(spi).tdr(), M::TX_PERID, config);
        lemma_issue(
            old(xdmac)@,
            tx_commands(channel@, region, old(spi).tdr(), M::TX_PERID, config),
        );
    }
}

/// What [`receiving`] says, of a slice, the receive register of an SPI and its
/// receive line.
pub proof fn receiving_by_spi<'a, M: SpiDma>(
    xdmac: &mut Xdmac,
    channel: Channel,
    spi: &'a mut Spi<M>,
    bytes: &'a mut [u8],
    config: TransferConfig,
    started: Result<Transfer<'a, PeripheralRx>, DmaError>,
)
    requires
        call_ensures(Xdmac::spi_rx::<M>, (xdmac, channel, spi, bytes, config), started),
        channel@ < 24,
    ensures
        final(bytes)@.len() == old(bytes)@.len(),
        *final(spi) == *old(spi),
        match started {
            Ok(transfer) => {
                &&& old(bytes)@.len() <= 0xff_ffff
                &&& only_queues(old(xdmac)@, final(xdmac)@)
                &&& exists|to: u32|
                    {
                        &&& #[trigger] is_run(
                            queued(old(xdmac)@, final(xdmac)@),
                            channel@,
                            old(spi).rdr(),
                            to,
                            old(bytes)@.len(),
                            config.width,
                            Route::FromPeripheral(M::RX_PERID),
                        )
                        &&& call_ensures(slice_addr, (&*old(bytes),), to)
                    }
                &&& has_begun(transfer@, channel@, None)
            },
            Err(error) => {
                &&& same(old(xdmac)@, final(xdmac)@)
                &&& final(bytes)@ == old(bytes)@
                &&& old(bytes)@.len() > 0xff_ffff
                &&& error == DmaError::LengthTooLarge
            },
        },
{
    if started is Ok {
        let region: Region = choose|region: Region| #[trigger]
            crate::peripheral::rx_starts(
                old(xdmac)@,
                final(xdmac)@,
                channel@,
                region,
                old(spi).rdr(),
                M::RX_PERID,
                config,
                started,
            ) && region.len == old(bytes)@.len() && call_ensures(
                slice_addr,
                (&*old(bytes),),
                region.addr,
            );
        lemma_rx_run(channel@, region, old(spi).rdr(), M::RX_PERID, config);
        lemma_issue(
            old(xdmac)@,
            rx_commands(channel@, region, old(spi).rdr(), M::RX_PERID, config),
        );
    }
}

/// What [`sending`] says, of a slice, the holding register of a UART half and its
/// transmit line. In another mode than UART it is refused before all else.
pub proof fn sending_by_uart_half<'a, M: UsartDma>(
    xdmac: &mut Xdmac,
    channel: Channel,
    tx: &'a mut uart::Tx<M>,
    bytes: &'a [u8],
    config: TransferConfig,
    started: Result<Transfer<'a, PeripheralTx>, DmaError>,
)
    requires
        call_ensures(Xdmac::usart_tx::<M>, (xdmac, channel, tx, bytes, config), started),
        channel@ < 24,
    ensures
        *final(tx) == *old(tx),
        old(tx).mode() != UsartMode::Uart ==> {
            &&& same(old(xdmac)@, final(xdmac)@)
            &&& started matches Err(error) && error == DmaError::InvalidMode
        },
        old(tx).mode() == UsartMode::Uart ==> match started {
            Ok(transfer) => {
                &&& bytes@.len() <= 0xff_ffff
                &&& only_queues(old(xdmac)@, final(xdmac)@)
                &&& exists|from: u32|
                    {
                        &&& #[trigger] is_run(
                            queued(old(xdmac)@, final(xdmac)@),
                            channel@,
                            from,
                            old(tx).thr(),
                            bytes@.len(),
                            config.width,
                            Route::ToPeripheral(M::TX_PERID),
                        )
                        &&& call_ensures(slice_addr, (bytes,), from)
                    }
                &&& has_begun(transfer@, channel@, None)
            },
            Err(error) => {
                &&& same(old(xdmac)@, final(xdmac)@)
                &&& bytes@.len() > 0xff_ffff
                &&& error == DmaError::LengthTooLarge
            },
        },
{
    if started is Ok {
        let region: Region = choose|region: Region| #[trigger]
            crate::peripheral::tx_starts(
                old(xdmac)@,
                final(xdmac)@,
                channel@,
                region,
                old(tx).thr(),
                M::TX_PERID,
                config,
                started,
            ) && region.len == bytes@.len() && call_ensures(slice_addr, (bytes,), region.addr);
        lemma_tx_run(channel@, region, old(tx).thr(), M::TX_PERID, config);
        lemma_issue(
            old(xdmac)@,
            tx_commands(channel@, region, old(tx).thr(), M::TX_PERID, config),
        );
    }
}

/// What [`receiving`] says, of a slice, the holding register of a UART half and its
/// receive line. In another mode than UART it is refused before all else.
pub proof fn receiving_by_uart_half<'a, M: UsartDma>(
    xdmac: &mut Xdmac,
    channel: Channel,
    rx: &'a mut uart::Rx<M>,
    bytes: &'a mut [u8],
    config: TransferConfig,
    started: Result<Transfer<'a, PeripheralRx>, DmaError>,
)
    requires
        call_ensures(Xdmac::usart_rx::<M>, (xdmac, channel, rx, bytes, config), started),
        channel@ < 24,
    ensures
        final(bytes)@.len() == old(bytes)@.len(),
        *final(rx) == *old(rx),
        old(rx).mode() != UsartMode::Uart ==> {
            &&& same(old(xdmac)@, final(xdmac)@)
            &&& final(bytes)@ == old(bytes)@
            &&& started matches Err(error) && error == DmaError::InvalidMode
        },
        old(rx).mode() == UsartMode::Uart ==> match started {
            Ok(transfer) => {
                &&& old(bytes)@.len() <= 0xff_ffff
                &&& only_queues(old(xdmac)@, final(xdmac)@)
                &&& exists|to: u32|
                    {
                        &&& #[trigger] is_run(
                            queued(old(xdmac)@, final(xdmac)@),
                            channel@,
                            old(rx).rhr(),
                            to,
                            old(bytes)@.len(),
                            config.width,
                            Route::FromPeripheral(M::RX_PERID),
                        )
                        &&& call_ensures(slice_addr, (&*old(bytes),), to)
                    }
                &&& has_begun(transfer@, channel@, None)
            },
            Err(error) => {
                &&& same(old(xdmac)@, final(xdmac)@)
                &&& final(bytes)@ == old(bytes)@
                &&& old(bytes)@.len() > 0xff_ffff
                &&& error == DmaError::LengthTooLarge
            },
        },
{
    if started is Ok {
        let region: Region = choose|region: Region| #[trigger]
            crate::peripheral::rx_starts(
                old(xdmac)@,
                final(xdmac)@,
                channel@,
                region,
                old(rx).rhr(),
                M::RX_PERID,
                config,
                started,
            ) && region.len == old(bytes)@.len() && call_ensures(
                slice_addr,
                (&*old(bytes),),
                region.addr,
            );
        lemma_rx_run(channel@, region, old(rx).rhr(), M::RX_PERID, config);
        lemma_issue(
            old(xdmac)@,
            rx_commands(channel@, region, old(rx).rhr(), M::RX_PERID, config),
        );
    }
}

/// What [`sending`] says, of a slice, the transmit register of a UART and its
/// transmit line. In another mode than UART it is refused before all else.
pub proof fn sending_by_uart<'a, M: UsartDma>(
    xdmac: &mut Xdmac,
    channel: Channel,
    uart: &'a mut uart::Uart<M>,
    bytes: &'a [u8],
    config: TransferConfig,
    started: Result<Transfer<'a, PeripheralTx>, DmaError>,
)
    requires
        call_ensures(Xdmac::usart_uart_tx::<M>, (xdmac, channel, uart, bytes, config), started),
        channel@ < 24,
    ensures
        *final(uart) == *old(uart),
        old(uart).mode() != UsartMode::Uart ==> {
            &&& same(old(xdmac)@, final(xdmac)@)
            &&& started matches Err(error) && error == DmaError::InvalidMode
        },
        old(uart).mode() == UsartMode::Uart ==> match started {
            Ok(transfer) => {
                &&& bytes@.len() <= 0xff_ffff
                &&& only_queues(old(xdmac)@, final(xdmac)@)
                &&& exists|from: u32|
                    {
                        &&& #[trigger] is_run(
                            queued(old(xdmac)@, final(xdmac)@),
                            channel@,
                            from,
                            old(uart).thr(),
                            bytes@.len(),
                            config.width,
                            Route::ToPeripheral(M::TX_PERID),
                        )
                        &&& call_ensures(slice_addr, (bytes,), from)
                    }
                &&& has_begun(transfer@, channel@, None)
            },
            Err(error) => {
                &&& same(old(xdmac)@, final(xdmac)@)
                &&& bytes@.len() > 0xff_ffff
                &&& error == DmaError::LengthTooLarge
            },
        },
{
    if started is Ok {
        let region: Region = choose|region: Region| #[trigger]
            crate::peripheral::tx_starts(
                old(xdmac)@,
                final(xdmac)@,
                channel@,
                region,
                old(uart).thr(),
                M::TX_PERID,
                config,
                started,
            ) && region.len == bytes@.len() && call_ensures(slice_addr, (bytes,), region.addr);
        lemma_tx_run(channel@, region, old(uart).thr(), M::TX_PERID, config);
        lemma_issue(
            old(xdmac)@,
            tx_commands(channel@, region, old(uart).thr(), M::TX_PERID, config),
        );
    }
}

/// What [`receiving`] says, of a slice, the receive register of a UART and its
/// receive line. In another mode than UART it is refused before all else.
pub proof fn receiving_by_uart<'a, M: UsartDma>(
    xdmac: &mut Xdmac,
    channel: Channel,
    uart: &'a mut uart::Uart<M>,
    bytes: &'a mut [u8],
    config: TransferConfig,
    started: Result<Transfer<'a, PeripheralRx>, DmaError>,
)
    requires
        call_ensures(Xdmac::usart_uart_rx::<M>, (xdmac, channel, uart, bytes, config), started),
        channel@ < 24,
    ensures
        final(bytes)@.len() == old(bytes)@.len(),
        *final(uart) == *old(uart),
        old(uart).mode() != UsartMode::Uart ==> {
            &&& same(old(xdmac)@, final(xdmac)@)
            &&& final(bytes)@ == old(bytes)@
            &&& started matches Err(error) && error == DmaError::InvalidMode
        },
        old(uart).mode() == UsartMode::Uart ==> match started {
            Ok(transfer) => {
                &&& old(bytes)@.len() <= 0xff_ffff
                &&& only_queues(old(xdmac)@, final(xdmac)@)
                &&& exists|to: u32|
                    {
                        &&& #[trigger] is_run(
                            queued(old(xdmac)@, final(xdmac)@),
                            channel@,
                            old(uart).rhr(),
                            to,
                            old(bytes)@.len(),
                            config.width,
                            Route::FromPeripheral(M::RX_PERID),
                        )
                        &&& call_ensures(slice_addr, (&*old(bytes),), to)
                    }
                &&& has_begun(transfer@, channel@, None)
            },
            Err(error) => {
                &&& same(old(xdmac)@, final(xdmac)@)
                &&& final(bytes)@ == old(bytes)@
                &&& old(bytes)@.len() > 0xff_ffff
                &&& error == DmaError::LengthTooLarge
            },
        },
{
    if started is Ok {
        let region: Region = choose|region: Region| #[trigger]
            crate::peripheral::rx_starts(
                old(xdmac)@,
                final(xdmac)@,
                channel@,
                region,
                old(uart).rhr(),
                M::RX_PERID,
                config,
                started,
            ) && region.len == old(bytes)@.len() && call_ensures(
                slice_addr,
                (&*old(bytes),),
                region.addr,
            );
        lemma_rx_run(channel@, region, old(uart).rhr(), M::RX_PERID, config);
        lemma_issue(
            old(xdmac)@,
            rx_commands(channel@, region, old(uart).rhr(), M::RX_PERID, config),
        );
    }
}

/// The commands set both channels up, as [`is_set_up`] says, the one to send
/// `tx` to `tdr` and the other to fill `rx` from `rdr`, and then start the
/// receiving one and last the transmitting one. They touch nothing but the two.
pub open spec fn is_full_duplex_run(
    commands: Seq<Command>,
    tx_channel: u8,
    rx_channel: u8,
    tx: u32,
    rx: u32,
    len: nat,
    tdr: u32,
    rdr: u32,
    tx_perid: u8,
    rx_perid: u8,
    width: DataWidth,
) -> bool {
    let last = commands.len() - 1;
    &&& last > 1
    &&& is_set_up(
        commands,
        last - 1,
        tx_channel,
        tx,
        tdr,
        len,
        width,
        Route::ToPeripheral(tx_perid),
    )
    &&& is_set_up(
        commands,
        last - 1,
        rx_channel,
        rdr,
        rx,
        len,
        width,
        Route::FromPeripheral(rx_perid),
    )
    &&& switches(commands[last - 1], Register::Ge, rx_channel)
    &&& switches(commands[last], Register::Ge, tx_channel)
    &&& forall|k: int|
        0 <= k < last - 1 ==> {
            ||| accesses(#[trigger] commands[k], tx_channel)
            ||| accesses(commands[k], rx_channel)
            ||| switches(commands[k], Register::Gd, tx_channel)
            ||| switches(commands[k], Register::Gd, rx_channel)
        }
}

/// A full-duplex transfer is refused when its buffers differ in length, else
/// when they are too long for a microblock, and not else; a refusal changes
/// nothing. One that is not refused has the transmitting channel read `tx` and
/// write `tdr`, and the receiving one read `rdr` and write `rx`, whatever the
/// length and the width, where the channels are two. The transfer is on both,
/// the transmitting one first.
pub proof fn exchanging<'a>(
    xdmac: &mut Xdmac,
    tx_channel: Channel,
    rx_channel: Channel,
    tx: Region,
    rx: Region,
    tdr: u32,
    rdr: u32,
    tx_perid: u8,
    rx_perid: u8,
    config: TransferConfig,
    started: Result<Transfer<'a, FullDuplex>, DmaError>,
)
    requires
        call_ensures(
            Xdmac::start_full_duplex,
            (xdmac, tx_channel, rx_channel, tx, rx, tdr, rdr, tx_perid, rx_perid, config),
            started,
        ),
        tx_channel@ < 24,
        rx_channel@ < 24,
    ensures
        match started {
            Ok(transfer) => {
                &&& tx.len == rx.len
                &&& tx.len <= 0xff_ffff
                &&& only_queues(old(xdmac)@, final(xdmac)@)
                &&& tx_channel@ != rx_channel@ ==> is_full_duplex_run(
                    queued(old(xdmac)@, final(xdmac)@),
                    tx_channel@,
                    rx_channel@,
                    tx.addr,
                    rx.addr,
                    tx.len as nat,
                    tdr,
                    rdr,
                    tx_perid,
                    rx_perid,
                    config.width,
                )
                &&& has_begun(transfer@, tx_channel@, Some(rx_channel@))
            },
            Err(error) => {
                &&& same(old(xdmac)@, final(xdmac)@)
                &&& tx.len != rx.len ==> error == DmaError::LengthMismatch
                &&& tx.len == rx.len ==> tx.len > 0xff_ffff && error == DmaError::LengthTooLarge
            },
        },
{
    if started is Ok {
        if tx_channel@ != rx_channel@ {
            lemma_full_duplex_run(
                tx_channel@,
                rx_channel@,
                tx,
                rx,
                tdr,
                rdr,
                tx_perid,
                rx_perid,
                config,
            );
        }
        lemma_issue(
            old(xdmac)@,
            full_duplex_commands(
                tx_channel@,
                rx_channel@,
                tx,
                rx,
                tdr,
                rdr,
                tx_perid,
                rx_perid,
                config,
            ),
        );
    }
}

proof fn lemma_full_duplex_run(
    t: u8,
    r: u8,
    tx: Region,
    rx: Region,
    tdr: u32,
    rdr: u32,
    tx_perid: u8,
    rx_perid: u8,
    config: TransferConfig,
)
    requires
        t < 24,
        r < 24,
        t != r,
        tx.len == rx.len,
        tx.len <= 0xff_ffff,
    ensures
        is_full_duplex_run(
            full_duplex_commands(t, r, tx, rx, tdr, rdr, tx_perid, rx_perid, config),
            t,
            r,
            tx.addr,
            rx.addr,
            tx.len as nat,
            tdr,
            rdr,
            tx_perid,
            rx_perid,
            config.width,
        ),
{
    let commands = full_duplex_commands(t, r, tx, rx, tdr, rdr, tx_perid, rx_perid, config);
    let items = config.width.items(tx.len as nat) as u32;
    let tx_cc = cc_tx_word(config.width, tx_perid);
    let rx_cc = cc_rx_word(config.width, rx_perid);
    lemma_full_duplex_blocks(t, r, tx, rx, tdr, rdr, tx_perid, rx_perid, config);
    lemma_mask_is_bit(t);
    lemma_mask_is_bit(r);
    lemma_bits_are_apart(t, r);
    lemma_configures(config.width, tx_perid);
    lemma_configures(config.width, rx_perid);
    lemma_block(
        commands,
        0,
        20,
        r,
        rdr,
        rx.addr,
        tx.len as nat,
        config.width,
        Route::FromPeripheral(rx_perid),
        items,
        rx_cc,
    );
    lemma_block(
        commands,
        10,
        20,
        t,
        tx.addr,
        tdr,
        tx.len as nat,
        config.width,
        Route::ToPeripheral(tx_perid),
        items,
        tx_cc,
    );
}

proof fn lemma_full_duplex_blocks(
    t: u8,
    r: u8,
    tx: Region,
    rx: Region,
    tdr: u32,
    rdr: u32,
    tx_perid: u8,
    rx_perid: u8,
    config: TransferConfig,
)
    requires
        tx.len == rx.len,
    ensures
        ({
            let commands = full_duplex_commands(t, r, tx, rx, tdr, rdr, tx_perid, rx_perid, config);
            let items = config.width.items(tx.len as nat) as u32;
            &&& commands.len() == 22
            &&& is_block(
                commands,
                0,
                r,
                rdr,
                rx.addr,
                items,
                cc_rx_word(config.width, rx_perid),
            )
            &&& is_block(
                commands,
                10,
                t,
                tx.addr,
                tdr,
                items,
                cc_tx_word(config.width, tx_perid),
            )
            &&& commands[20] == Command::Write(Register::Ge, channel_mask(r))
            &&& commands[21] == Command::Write(Register::Ge, channel_mask(t))
        }),
{
}

/// What [`exchanging`] says, of slices, the data registers of an SPI and its
/// request lines.
pub proof fn exchanging_by_spi<'a, M: SpiDma>(
    xdmac: &mut Xdmac,
    tx_channel: Channel,
    rx_channel: Channel,
    spi: &'a mut Spi<M>,
    tx: &'a [u8],
    rx: &'a mut [u8],
    config: TransferConfig,
    started: Result<Transfer<'a, FullDuplex>, DmaError>,
)
    requires
        call_ensures(
            Xdmac::spi_transfer::<M>,
            (xdmac, tx_channel, rx_channel, spi, tx, rx, config),
            started,
        ),
        tx_channel@ < 24,
        rx_channel@ < 24,
    ensures
        final(rx)@.len() == old(rx)@.len(),
        *final(spi) == *old(spi),
        match started {
            Ok(transfer) => {
                &&& tx@.len() == old(rx)@.len()
                &&& tx@.len() <= 0xff_ffff
                &&& only_queues(old(xdmac)@, final(xdmac)@)
                &&& tx_channel@ != rx_channel@ ==> exists|from: u32, to: u32|
                    {
                        &&& #[trigger] is_full_duplex_run(
                            queued(old(xdmac)@, final(xdmac)@),
                            tx_channel@,
                            rx_channel@,
                            from,
                            to,
                            tx@.len(),
                            old(spi).tdr(),
                            old(spi).rdr(),
                            M::TX_PERID,
                            M::RX_PERID,
                            config.width,
                        )
                        &&& call_ensures(slice_addr, (tx,), from)
                        &&& call_ensures(slice_addr, (&*old(rx),), to)
                    }
                &&& has_begun(transfer@, tx_channel@, Some(rx_channel@))
            },
            Err(error) => {
                &&& same(old(xdmac)@, final(xdmac)@)
                &&& final(rx)@ == old(rx)@
                &&& tx@.len() != old(rx)@.len() ==> error == DmaError::LengthMismatch
                &&& tx@.len() == old(rx)@.len() ==> tx@.len() > 0xff_ffff && error
                    == DmaError::LengthTooLarge
            },
        },
{
    let (from, to): (Region, Region) = choose|from: Region, to: Region| #[trigger]
        crate::peripheral::full_duplex_starts(
            old(xdmac)@,
            final(xdmac)@,
            tx_channel@,
            rx_channel@,
            from,
            to,
            old(spi).tdr(),
            old(spi).rdr(),
            M::TX_PERID,
            M::RX_PERID,
            config,
            started,
        ) && from.len == tx@.len() && to.len == old(rx)@.len() && call_ensures(
            slice_addr,
            (tx,),
            from.addr,
        ) && call_ensures(slice_addr, (&*old(rx),), to.addr);
    if started is Ok {
        if tx_channel@ != rx_channel@ {
            lemma_full_duplex_run(
                tx_channel@,
                rx_channel@,
                from,
                to,
                old(spi).tdr(),
                old(spi).rdr(),
                M::TX_PERID,
                M::RX_PERID,
                config,
            );
        }
        lemma_issue(
            old(xdmac)@,
            full_duplex_commands(
                tx_channel@,
                rx_channel@,
                from,
                to,
                old(spi).tdr(),
                old(spi).rdr(),
                M::TX_PERID,
                M::RX_PERID,
                config,
            ),
        );
    }
}

/// A peripheral is known by the addresses and the mode that it was made with.
pub proof fn making_ports<M>(
    mode: UsartMode,
    out: u32,
    into: u32,
    spi: Spi<M>,
    tx: uart::Tx<M>,
    rx: uart::Rx<M>,
    both: uart::Uart<M>,
)
    requires
        call_ensures(Spi::<M>::new, (out, into), spi),
        call_ensures(uart::Tx::<M>::new, (mode, out), tx),
        call_ensures(uart::Rx::<M>::new, (mode, into), rx),
        call_ensures(uart::Uart::<M>::new, (mode, out, into), both),
    ensures
        spi.tdr() == out,
        spi.rdr() == into,
        tx.mode() == mode,
        tx.thr() == out,
        rx.mode() == mode,
        rx.rhr() == into,
        both.mode() == mode,
        both.thr() == out,
        both.rhr() == into,
{
}

/// What is asked of a peripheral is what it is known by.
pub proof fn asking_ports<M>(
    spi: &Spi<M>,
    tx: &uart::Tx<M>,
    rx: &uart::Rx<M>,
    both: &uart::Uart<M>,
    addrs: (u32, u32, u32, u32, u32, u32),
    modes: (UsartMode, UsartMode, UsartMode),
)
    requires
        call_ensures(Spi::<M>::dma_tdr_addr, (spi,), addrs.0),
        call_ensures(Spi::<M>::dma_rdr_addr, (spi,), addrs.1),
        call_ensures(uart::Tx::<M>::dma_thr_addr, (tx,), addrs.2),
        call_ensures(uart::Rx::<M>::dma_rhr_addr, (rx,), addrs.3),
        call_ensures(uart::Uart::<M>::dma_thr_addr, (both,), addrs.4),
        call_ensures(uart::Uart::<M>::dma_rhr_addr, (both,), addrs.5),
        call_ensures(uart::Tx::<M>::dma_mode, (tx,), modes.0),
        call_ensures(uart::Rx::<M>::dma_mode, (rx,), modes.1),
        call_ensures(uart::Uart::<M>::dma_mode, (both,), modes.2),
    ensures
        addrs == (spi.tdr(), spi.rdr(), tx.thr(), rx.rhr(), both.thr(), both.rhr()),
        modes == (tx.mode(), rx.mode(), both.mode()),
{
}

/// A mode word says UART when its four low bits are zero, and else not.
pub proof fn reading_a_mode(word: u32, mode: UsartMode)
    requires
        call_ensures(UsartMode::from_mode_word, (word,), mode),
    ensures
        mode == UsartMode::Uart <==> word & 0xf == 0,
{
    assert((word & 0xf == 0) == (word % 16 == 0)) by (bit_vector);
}

// ---------------------------------------------------------------------------
// Status
// ---------------------------------------------------------------------------

/// Each of the seven low bits of a status word has its flag, and the others
/// have none.
pub proof fn decoding(bits: u32, status: ChannelStatus)
    requires
        call_ensures(ChannelStatus::from_bits, (bits,), status),
    ensures
        are_flags_of(status, bits),
        status.block_complete <==> bits & 0x01 != 0,
        status.linked_list_complete <==> bits & 0x02 != 0,
        status.disabled <==> bits & 0x04 != 0,
        status.flushed <==> bits & 0x08 != 0,
        status.read_bus_error <==> bits & 0x10 != 0,
        status.write_bus_error <==> bits & 0x20 != 0,
        status.request_overflow <==> bits & 0x40 != 0,
{
    assert({
        &&& (bits & 0x01 != 0) == (bits % 2 == 1)
        &&& (bits & 0x02 != 0) == (bits / 2 % 2 == 1)
        &&& (bits & 0x04 != 0) == (bits / 4 % 2 == 1)
        &&& (bits & 0x08 != 0) == (bits / 8 % 2 == 1)
        &&& (bits & 0x10 != 0) == (bits / 16 % 2 == 1)
        &&& (bits & 0x20 != 0) == (bits / 32 % 2 == 1)
        &&& (bits & 0x40 != 0) == (bits / 64 % 2 == 1)
    }) by (bit_vector);
}

/// A channel has an error when one of its three error flags is up.
pub proof fn looking_for_a_channel_error(status: &ChannelStatus, error: bool)
    requires
        call_ensures(ChannelStatus::has_error, (status,), error),
    ensures
        error <==> status.read_bus_error || status.write_bus_error || status.request_overflow,
{
}

/// A transfer status is complete when every channel in it is, and has an error
/// when some channel in it has.
pub proof fn looking_at_a_transfer_status(status: &TransferStatus, complete: bool, error: bool)
    requires
        call_ensures(TransferStatus::is_complete, (status,), complete),
        call_ensures(TransferStatus::has_error, (status,), error),
    ensures
        status.secondary matches Some(second) ==> {
            &&& complete <==> status.primary.block_complete && second.block_complete
            &&& error <==> {
                ||| status.primary.read_bus_error
                ||| status.primary.write_bus_error
                ||| status.primary.request_overflow
                ||| second.read_bus_error
                ||| second.write_bus_error
                ||| second.request_overflow
            }
        },
        status.secondary is None ==> {
            &&& complete <==> status.primary.block_complete
            &&& error <==> {
                ||| status.primary.read_bus_error
                ||| status.primary.write_bus_error
                ||| status.primary.request_overflow
            }
        },
{
}

// ---------------------------------------------------------------------------
// Running transfers
// ---------------------------------------------------------------------------

/// The status has the flags of each word of the reading.
pub open spec fn shows(status: TransferStatus, reading: StatusReading) -> bool {
    &&& are_flags_of(status.primary, reading.primary)
    &&& match reading.secondary {
        Some(bits) => status.secondary matches Some(second) && are_flags_of(second, bits),
        None => status.secondary is None,
    }
}

/// Some word of the reading has the bit of an error.
pub open spec fn some_error(reading: StatusReading) -> bool {
    has_error(reading.primary) || (reading.secondary matches Some(bits) && has_error(bits))
}

/// The transfer after the reading: it is on the channels that it was on, and
/// what was reported before or is reported now is reported.
pub open spec fn has_taken_in(
    before: TransferState,
    after: TransferState,
    reading: StatusReading,
) -> bool {
    &&& after.primary == before.primary
    &&& after.secondary == before.secondary
    &&& after.primary_done <==> before.primary_done || has_end(reading.primary)
    &&& after.secondary_done <==> before.secondary_done || (reading.secondary matches Some(bits)
        && has_end(bits))
    &&& after.failed <==> before.failed || some_error(reading)
}

/// All channels of the transfer have ended their block.
pub open spec fn all_ended(transfer: TransferState) -> bool {
    transfer.primary_done && (transfer.secondary is None || transfer.secondary_done)
}

/// Every word of the reading has the bit of the end of the block.
pub open spec fn all_end(reading: StatusReading) -> bool {
    has_end(reading.primary) && (reading.secondary matches Some(bits) ==> has_end(bits))
}

/// The three error bits stand side by side.
pub proof fn lemma_error_bits(bits: u32)
    ensures
        has_error(bits) <==> bits / 16 % 2 == 1 || bits / 32 % 2 == 1 || bits / 64 % 2 == 1,
{
    assert((bits / 16 % 8 != 0) == (bits / 16 % 2 == 1 || bits / 32 % 2 == 1 || bits / 64 % 2 == 1))
        by (bit_vector);
}

proof fn lemma_errors(reading: StatusReading)
    ensures
        some_error(reading) <==> {
            ||| crate::status::decode(reading.primary).failed()
            ||| (reading.secondary matches Some(bits) && crate::status::decode(bits).failed())
        },
{
    lemma_error_bits(reading.primary);
    if let Some(bits) = reading.secondary {
        lemma_error_bits(bits);
    }
}

/// A status is what the reading shows, and the transfer takes it in.
pub proof fn reading_a_status<'a, K>(
    transfer: &mut Transfer<'a, K>,
    reading: StatusReading,
    status: TransferStatus,
)
    requires
        call_ensures(Transfer::<'a, K>::status, (transfer, reading), status),
        old(transfer)@.secondary is Some <==> reading.secondary is Some,
    ensures
        shows(status, reading),
        has_taken_in(old(transfer)@, final(transfer)@, reading),
{
    lemma_errors(reading);
}

/// A transfer is complete when all of its channels have ended their block, by
/// this reading or before it.
pub proof fn asking_for_completion<'a, K>(
    transfer: &mut Transfer<'a, K>,
    reading: StatusReading,
    complete: bool,
)
    requires
        call_ensures(Transfer::<'a, K>::is_complete, (transfer, reading), complete),
        old(transfer)@.secondary is Some <==> reading.secondary is Some,
    ensures
        has_taken_in(old(transfer)@, final(transfer)@, reading),
        complete <==> all_ended(final(transfer)@),
{
    lemma_errors(reading);
}

/// Waiting fails with what the reading shows if that is an error. Else it
/// succeeds if the reading shows that all channels have ended their block, or
/// if they have by now and no error was read before. Else it goes on.
pub proof fn waiting<'a, K>(
    transfer: &mut Transfer<'a, K>,
    reading: StatusReading,
    outcome: Option<Result<(), DmaError>>,
)
    requires
        call_ensures(Transfer::<'a, K>::wait, (transfer, reading), outcome),
        old(transfer)@.secondary is Some <==> reading.secondary is Some,
    ensures
        has_taken_in(old(transfer)@, final(transfer)@, reading),
        match outcome {
            Some(Err(error)) => {
                &&& some_error(reading)
                &&& error matches DmaError::Transfer(status) && shows(status, reading)
            },
            Some(Ok(_)) => {
                &&& !some_error(reading)
                &&& all_end(reading) || (all_ended(final(transfer)@) && !old(transfer)@.failed)
            },
            None => {
                &&& !some_error(reading)
                &&& !all_end(reading)
                &&& !all_ended(final(transfer)@) || old(transfer)@.failed
            },
        },
{
    lemma_errors(reading);
}

/// A transfer gives its channels back as it got them: those that it is on.
pub proof fn freeing<'a, K>(transfer: Transfer<'a, K>, channels: ChannelSet)
    requires
        call_ensures(Transfer::<'a, K>::free, (transfer,), channels),
    ensures
        channels.primary@ == transfer@.primary,
        channels.secondary is Some <==> transfer@.secondary is Some,
        channels.secondary matches Some(second) ==> transfer@.secondary == Some(second@),
{
}

/// Cancelling stops each channel of the transfer, the primary one first, by a
/// write that has its bit and no other, and gives the channels back.
pub proof fn cancelling<'a, K>(
    transfer: Transfer<'a, K>,
    xdmac: &mut Xdmac,
    channels: ChannelSet,
)
    requires
        call_ensures(Transfer::<'a, K>::cancel, (transfer, xdmac), channels),
        transfer@.primary < 24,
        transfer@.secondary matches Some(second) ==> second < 24,
    ensures
        channels.primary@ == transfer@.primary,
        channels.secondary is Some <==> transfer@.secondary is Some,
        channels.secondary matches Some(second) ==> transfer@.secondary == Some(second@),
        only_queues(old(xdmac)@, final(xdmac)@),
        ({
            let commands = queued(old(xdmac)@, final(xdmac)@);
            &&& commands.len() == if transfer@.secondary is Some {
                2int
            } else {
                1int
            }
            &&& switches(commands[0], Register::Gd, transfer@.primary)
            &&& transfer@.secondary matches Some(second) ==> switches(
                commands[1],
                Register::Gd,
                second,
            )
        }),
{
    lemma_mask_is_bit(transfer@.primary);
    if let Some(second) = transfer@.secondary {
        lemma_mask_is_bit(second);
    }
    lemma_issue(old(xdmac)@, transfer@.cancel_commands());
}

/// The channel numbers of a transfer are those of the channels that it is on.
pub proof fn asking_for_channels<'a, K>(
    transfer: &Transfer<'a, K>,
    primary: u8,
    secondary: Option<u8>,
)
    requires
        call_ensures(Transfer::<'a, K>::channel, (transfer,), primary),
        call_ensures(Transfer::<'a, K>::secondary_channel, (transfer,), secondary),
    ensures
        primary == transfer@.primary,
        primary < 24,
        secondary == transfer@.secondary,
        secondary matches Some(number) ==> number < 24,
{
}

/// A copy that was started and cancelled gives back the channel that it was
/// given, which is one that can be released if it was leased; then it is free,
/// and all other leases are as before.
pub proof fn copying_and_cancelling<'a>(
    start: &mut Xdmac,
    channel: Channel,
    src: Region,
    dst: Region,
    config: TransferConfig,
    transfer: Transfer<'a, MemToMem>,
    cancel: &mut Xdmac,
    channels: ChannelSet,
    release: &mut Xdmac,
    released: Result<(), DmaError>,
)
    requires
        channel@ < 24,
        call_ensures(Xdmac::start_memcpy, (start, channel, src, dst, config), Ok(transfer)),
        *old(cancel) == *final(start),
        call_ensures(Transfer::<'a, MemToMem>::cancel, (transfer, cancel), channels),
        *old(release) == *final(cancel),
        call_ensures(Xdmac::release_channel, (release, channels.primary), released),
        old(start)@.allocated.contains(channel@),
    ensures
        channels.primary@ == channel@,
        channels.secondary is None,
        released is Ok,
        forall|m: u8| #[trigger]
            final(release)@.allocated.contains(m) <==> old(start)@.allocated.contains(m) && m
                != channel@,
{
    copying(start, channel, src, dst, config, Ok(transfer));
    cancelling(transfer, cancel, channels);
    releasing(release, channels.primary, released);
}

// ---------------------------------------------------------------------------
// When calls are allowed
// ---------------------------------------------------------------------------

/// A manager may be asked for anything at any time.
pub proof fn a_manager_may_be_called<'a>(
    xdmac: &mut Xdmac,
    channel: Channel,
    other: Channel,
    src: Region,
    dst: Region,
    bytes: &'a [u8],
    room: &'a mut [u8],
    addr: (u32, u32),
    line: (u8, u8),
    config: TransferConfig,
)
    ensures
        call_requires(Xdmac::new, ()),
        call_requires(Xdmac::take_commands, (xdmac,)),
        call_requires(Xdmac::alloc_channel, (xdmac,)),
        call_requires(Xdmac::release_channel, (xdmac, channel)),
        call_requires(Xdmac::start_memcpy, (xdmac, channel, src, dst, config)),
        call_requires(Xdmac::memcpy, (xdmac, channel, bytes, room, config)),
        call_requires(Xdmac::start_tx, (xdmac, channel, src, addr.0, line.0, config)),
        call_requires(Xdmac::start_rx, (xdmac, channel, src, addr.0, line.0, config)),
        call_requires(
            Xdmac::start_full_duplex,
            (xdmac, channel, other, src, dst, addr.0, addr.1, line.0, line.1, config),
        ),
{
}

/// An SPI may be used for any transfer at any time.
pub proof fn an_spi_may_be_used<'a, M: SpiDma>(
    xdmac: &mut Xdmac,
    channel: Channel,
    other: Channel,
    spi: &'a mut Spi<M>,
    bytes: &'a [u8],
    room: &'a mut [u8],
    config: TransferConfig,
)
    ensures
        call_requires(Xdmac::spi_tx::<M>, (xdmac, channel, spi, bytes, config)),
        call_requires(Xdmac::spi_rx::<M>, (xdmac, channel, spi, room, config)),
        call_requires(Xdmac::spi_transfer::<M>, (xdmac, channel, other, spi, bytes, room, config)),
{
}

/// A UART and its halves may be used for any transfer at any time.
pub proof fn a_uart_may_be_used<'a, M: UsartDma>(
    xdmac: &mut Xdmac,
    channel: Channel,
    tx: &'a mut uart::Tx<M>,
    rx: &'a mut uart::Rx<M>,
    both: &'a mut uart::Uart<M>,
    bytes: &'a [u8],
    room: &'a mut [u8],
    config: TransferConfig,
)
    ensures
        call_requires(Xdmac::usart_tx::<M>, (xdmac, channel, tx, bytes, config)),
        call_requires(Xdmac::usart_rx::<M>, (xdmac, channel, rx, room, config)),
        call_requires(Xdmac::usart_uart_tx::<M>, (xdmac, channel, both, bytes, config)),
        call_requires(Xdmac::usart_uart_rx::<M>, (xdmac, channel, both, room, config)),
{
}

/// A transfer may be asked for anything at any time, with a reading that has a
/// word for each of its channels.
pub proof fn a_transfer_may_be_called<'a, K>(
    transfer: &mut Transfer<'a, K>,
    over: Transfer<'a, K>,
    xdmac: &mut Xdmac,
    reading: StatusReading,
    bits: u32,
    len: usize,
)
    requires
        old(transfer)@.secondary is Some <==> reading.secondary is Some,
    ensures
        call_requires(Transfer::<'a, K>::status, (transfer, reading)),
        call_requires(Transfer::<'a, K>::is_complete, (transfer, reading)),
        call_requires(Transfer::<'a, K>::wait, (transfer, reading)),
        call_requires(Transfer::<'a, K>::channel, (&over,)),
        call_requires(Transfer::<'a, K>::secondary_channel, (&over,)),
        call_requires(Transfer::<'a, K>::cancel, (over, xdmac)),
        call_requires(Transfer::<'a, K>::free, (over,)),
        call_requires(ChannelStatus::from_bits, (bits,)),
        call_requires(validate_len, (len,)),
{
}

// ---------------------------------------------------------------------------
// Small things
// ---------------------------------------------------------------------------

/// A length is accepted up to what 24 bits hold.
pub proof fn validating(len: usize, checked: Result<(), DmaError>)
    requires
        call_ensures(validate_len, (len,), checked),
    ensures
        checked is Ok <==> len < 0x100_0000,
        checked matches Err(error) ==> error == DmaError::LengthTooLarge,
{
}

/// A descriptor's control byte has a bit for each of its three flags and the
/// view number, cut to two bits, above them.
pub proof fn controlling(
    fetch: bool,
    source: bool,
    destination: bool,
    view: u8,
    control: XdmacDescriptorControl,
)
    requires
        call_ensures(
            XdmacDescriptorControl::new,
            (fetch, source, destination, view),
            control,
        ),
    ensures
        control.0 % 2 == 1 <==> fetch,
        control.0 / 2 % 2 == 1 <==> source,
        control.0 / 4 % 2 == 1 <==> destination,
        control.0 / 8 == view % 4,
{
}

/// By default items are bytes, nothing is reported, and descriptors are zero.
pub proof fn defaults(
    config: TransferConfig,
    status: ChannelStatus,
    view0: DescriptorView0,
    view1: DescriptorView1,
    view2: DescriptorView2,
    view3: DescriptorView3,
)
    requires
        call_ensures(TransferConfig::default, (), config),
        call_ensures(ChannelStatus::default, (), status),
        call_ensures(DescriptorView0::default, (), view0),
        call_ensures(DescriptorView1::default, (), view1),
        call_ensures(DescriptorView2::default, (), view2),
        call_ensures(DescriptorView3::default, (), view3),
    ensures
        config.width == DataWidth::Byte,
        are_flags_of(status, 0),
        view0.mbr_nda == 0 && view0.mbr_ubc == 0 && view0.mbr_da == 0,
        view1.mbr_nda == 0 && view1.mbr_ubc == 0 && view1.mbr_sa == 0 && view1.mbr_da == 0,
        view2.mbr_nda == 0 && view2.mbr_ubc == 0 && view2.mbr_sa == 0 && view2.mbr_da == 0
            && view2.mbr_cfg == 0,
        view3.mbr_nda == 0 && view3.mbr_ubc == 0 && view3.mbr_sa == 0 && view3.mbr_da == 0
            && view3.mbr_cfg == 0 && view3.mbr_bc == 0 && view3.mbr_ds == 0 && view3.mbr_sus == 0
            && view3.mbr_dus == 0,
{
}

} // verus!
