//! What holds of the manager and its transfers as a whole.

use crate::buffer::Region;
use crate::capture::{Capture, CaptureError};
use crate::config::{DataWidth, TransferConfig};
use crate::controller::{
    allocates, memcpy_commands, memcpy_refusal, releases, starts, XdmacState,
};
use crate::error::{DmaError, UBLEN_MAX};
use crate::peripheral::{
    full_duplex_commands, full_duplex_refusal, length_refusal, rx_commands, tx_commands,
};
use crate::registers::{
    cc_word, channel_mask, disable_commands, start_commands, ChannelRegister,
    Command, Register, ALL_CHANNELS, CHANNELS,
};
use crate::status::decode;
use crate::transfer::{StatusReading, Transfer, TransferState};
use vstd::prelude::*;

verus! {

// ---------------------------------------------------------------------------
// Leases
// ---------------------------------------------------------------------------

/// A call on a manager, with what it gave.
pub enum Event {
    /// An allocation, and the channel that it leased.
    Alloc(Result<u8, DmaError>),
    /// A release of a channel.
    Release(u8, Result<(), DmaError>),
    /// Commands put in the queue, as starting and cancelling transfers do.
    Issue(Seq<Command>),
    /// The commands taken out of the queue.
    Drain,
}

/// `event` leads from `pre` to `post`.
pub open spec fn step(pre: XdmacState, event: Event, post: XdmacState) -> bool {
    match event {
        Event::Alloc(leased) => allocates(pre, post, leased),
        Event::Release(index, released) => releases(pre, post, index, released),
        Event::Issue(commands) => post == pre.issue(commands),
        Event::Drain => post == (XdmacState { commands: Seq::empty(), ..pre }),
    }
}

/// The life of a manager: the states that it goes through, and the calls that
/// lead from each to the next.
pub open spec fn history(states: Seq<XdmacState>, events: Seq<Event>) -> bool {
    &&& states.len() == events.len() + 1
    &&& forall|k: int|
        0 <= k < events.len() ==> #[trigger] step(states[k], events[k], states[k + 1])
}

/// The call gives channel `index` back.
pub open spec fn gives_back(event: Event, index: u8) -> bool {
    event matches Event::Release(number, released) && number == index && released is Ok
}

/// How many leases are out after the first `upto` calls: the allocations that
/// succeeded less the releases that did.
pub open spec fn leases_out(events: Seq<Event>, upto: int) -> int
    decreases upto,
{
    if upto <= 0 {
        0
    } else {
        leases_out(events, upto - 1) + match events[upto - 1] {
            Event::Alloc(Ok(_)) => 1int,
            Event::Release(_, Ok(_)) => -1int,
            _ => 0int,
        }
    }
}

/// Starting a transfer, or refusing to, puts commands in the queue and does
/// nothing else.
pub proof fn starting_only_issues_commands<'a, K>(
    pre: XdmacState,
    post: XdmacState,
    refusal: Option<DmaError>,
    transfer: TransferState,
    commands: Seq<Command>,
    started: Result<Transfer<'a, K>, DmaError>,
)
    requires
        starts(pre, post, refusal, transfer, commands, started),
    ensures
        refusal is None ==> step(pre, Event::Issue(commands), post),
        refusal is Some ==> step(pre, Event::Issue(Seq::empty()), post),
        post.allocated == pre.allocated,
{
    assert(pre =~= pre.issue(Seq::empty()));
}

/// A lease is exclusive until it is released: as long as the channel has not
/// been given back, it stays leased, no allocation hands it out, and giving
/// it back is not refused.
pub proof fn lease_is_exclusive(
    states: Seq<XdmacState>,
    events: Seq<Event>,
    leased: int,
    later: int,
    index: u8,
)
    requires
        history(states, events),
        0 <= leased < later < events.len(),
        events[leased] == Event::Alloc(Ok(index)),
        forall|k: int|
            leased < k < later ==> !#[trigger] gives_back(events[k], index),
    ensures
        states[later].allocated.contains(index),
        events[later] != Event::Alloc(Ok(index)),
        events[later] matches Event::Release(number, released) ==> number == index
            ==> released is Ok,
    decreases later,
{
    assert(step(states[later], events[later], states[later + 1]));
    assert(step(states[later - 1], events[later - 1], states[later - 1 + 1]));
    if leased < later - 1 {
        lease_is_exclusive(states, events, leased, later - 1, index);
        assert(!gives_back(events[later - 1], index));
    }
}

/// In the life of a manager only hardware channels are ever leased, and as
/// many are out as allocations have succeeded less releases.
pub proof fn leases_are_counted(states: Seq<XdmacState>, events: Seq<Event>, upto: int)
    requires
        history(states, events),
        states[0] == XdmacState::fresh(),
        0 <= upto <= events.len(),
    ensures
        forall|index: u8| #[trigger] states[upto].allocated.contains(index) ==> index < CHANNELS,
        states[upto].allocated.finite(),
        states[upto].allocated.len() == leases_out(events, upto),
    decreases upto,
{
    if upto > 0 {
        leases_are_counted(states, events, upto - 1);
        assert(step(states[upto - 1], events[upto - 1], states[upto - 1 + 1]));
    }
}

/// In the life of a manager an allocation is refused when all channels are
/// leased, and only then.
pub proof fn refused_only_when_all_are_leased(
    states: Seq<XdmacState>,
    events: Seq<Event>,
    at: int,
)
    requires
        history(states, events),
        states[0] == XdmacState::fresh(),
        0 <= at < events.len(),
        events[at] is Alloc,
    ensures
        events[at] == Event::Alloc(Err(DmaError::NoChannel)) <==> leases_out(events, at)
            == CHANNELS,
        leases_out(events, at) <= CHANNELS,
{
    leases_are_counted(states, events, at);
    assert(step(states[at], events[at], states[at + 1]));
    let leased = states[at].allocated;
    let all = channels_below(CHANNELS);
    lemma_channels_below_len(CHANNELS);
    assert(leased.subset_of(all));
    vstd::set_lib::lemma_len_subset(leased, all);
    if states[at].exhausted() {
        assert(leased =~= all);
    } else if leased.len() == all.len() {
        vstd::set_lib::lemma_subset_equality(leased, all);
    }
}

/// The channels with a number below `bound`.
pub open spec fn channels_below(bound: u8) -> Set<u8> {
    Set::new(|index: u8| index < bound)
}

proof fn lemma_channels_below_len(bound: u8)
    ensures
        channels_below(bound).finite(),
        channels_below(bound).len() == bound,
    decreases bound,
{
    if bound == 0 {
        assert(channels_below(bound) =~= Set::empty());
    } else {
        let less: u8 = (bound - 1) as u8;
        lemma_channels_below_len(less);
        assert(channels_below(bound) =~= channels_below(less).insert(less));
    }
}

/// A new manager leases its channels in the order of their numbers, each
/// once, until all are out; from then on it refuses.
pub proof fn fresh_manager_leases_in_order(
    states: Seq<XdmacState>,
    events: Seq<Event>,
    at: int,
)
    requires
        history(states, events),
        states[0] == XdmacState::fresh(),
        forall|k: int| 0 <= k < events.len() ==> #[trigger] events[k] is Alloc,
        0 <= at < events.len(),
    ensures
        at < CHANNELS ==> events[at] == Event::Alloc(Ok(at as u8)),
        at >= CHANNELS ==> events[at] == Event::Alloc(Err(DmaError::NoChannel)),
{
    lemma_leased_in_order(states, events, at);
    assert(step(states[at], events[at], states[at + 1]));
    if at < CHANNELS {
        assert(!states[at].allocated.contains(at as u8));
    }
}

proof fn lemma_leased_in_order(states: Seq<XdmacState>, events: Seq<Event>, at: int)
    requires
        history(states, events),
        states[0] == XdmacState::fresh(),
        forall|k: int| 0 <= k < events.len() ==> #[trigger] events[k] is Alloc,
        0 <= at <= events.len(),
    ensures
        at < CHANNELS ==> states[at].allocated == channels_below(at as u8),
        at >= CHANNELS ==> states[at].allocated == channels_below(CHANNELS),
    decreases at,
{
    if at == 0 {
        assert(states[0].allocated =~= channels_below(0));
    } else {
        lemma_leased_in_order(states, events, at - 1);
        assert(step(states[at - 1], events[at - 1], states[at - 1 + 1]));
        assert(events[at - 1] is Alloc);
        if at - 1 < CHANNELS {
            let next: u8 = (at - 1) as u8;
            assert(!states[at - 1].allocated.contains(next));
            assert(states[at].allocated =~= channels_below(at as u8));
        }
    }
}

/// Giving a channel back undoes the allocation, whatever commands were put in
/// the queue or taken out of it in between: the release is accepted, the same
/// channels are leased as before, and the channel is disabled.
pub proof fn release_undoes_allocation(
    before: XdmacState,
    leased: XdmacState,
    used: XdmacState,
    after: XdmacState,
    index: u8,
    released: Result<(), DmaError>,
)
    requires
        allocates(before, leased, Ok(index)),
        used.allocated == leased.allocated,
        releases(used, after, index, released),
    ensures
        released is Ok,
        after.allocated == before.allocated,
        after.commands == used.commands + disable_commands(index),
{
    assert(before.allocated.insert(index).remove(index) =~= before.allocated);
}

/// A channel that was released is free: releasing it again is refused, and
/// the next allocation hands it out if no lower one is free.
pub proof fn released_channel_is_free(
    before: XdmacState,
    after: XdmacState,
    index: u8,
    again: Result<(), DmaError>,
    end: XdmacState,
    next: Result<u8, DmaError>,
    other_end: XdmacState,
)
    requires
        releases(before, after, index, Ok(())),
        index < CHANNELS,
        releases(after, end, index, again),
        allocates(after, other_end, next),
    ensures
        again == Err::<(), DmaError>(DmaError::UnallocatedChannel),
        end == after,
        next matches Ok(number) && number <= index,
        (forall|lower: u8| lower < index ==> before.allocated.contains(lower)) ==> next == Ok::<
            u8,
            DmaError,
        >(index),
{
    assert(!after.allocated.contains(index));
}

// ---------------------------------------------------------------------------
// Commands
// ---------------------------------------------------------------------------

/// The command concerns channel `index` and no other: it is an access to one
/// of the channel's registers, or switches the channel alone.
pub open spec fn touches_only(command: Command, index: u8) -> bool {
    match command {
        Command::EnableClock => false,
        Command::ReadStatus(number) => number == index,
        Command::Write(Register::Channel(number, _), _) => number == index,
        Command::Write(_, word) => word == channel_mask(index),
    }
}

/// The command enables some channel.
pub open spec fn enables(command: Command) -> bool {
    command matches Command::Write(Register::Ge, _)
}

/// Starting a one-channel transfer concerns its channel alone. The channel is
/// disabled first, set up while it stands still, and enabled last.
pub proof fn starting_keeps_to_its_channel(index: u8, src: u32, dst: u32, items: u32, cc: u32)
    ensures
        ({
            let commands = start_commands(index, src, dst, items, cc);
            let last = commands.len() - 1;
            &&& forall|k: int|
                0 <= k < commands.len() ==> #[trigger] touches_only(commands[k], index)
            &&& commands[0] == Command::Write(Register::Gd, channel_mask(index))
            &&& commands[last] == Command::Write(Register::Ge, channel_mask(index))
            &&& forall|k: int| 0 <= k < last ==> !#[trigger] enables(commands[k])
        }),
{
}

/// Starting a full-duplex transfer concerns its two channels alone, and none
/// of them is enabled before both are set up; the receiving one comes first.
pub proof fn full_duplex_keeps_to_its_channels(
    tx_channel: u8,
    rx_channel: u8,
    tx: Region,
    rx: Region,
    tdr: u32,
    rdr: u32,
    tx_perid: u8,
    rx_perid: u8,
    config: TransferConfig,
)
    ensures
        ({
            let commands = full_duplex_commands(
                tx_channel,
                rx_channel,
                tx,
                rx,
                tdr,
                rdr,
                tx_perid,
                rx_perid,
                config,
            );
            let len = commands.len();
            &&& forall|k: int|
                0 <= k < len ==> touches_only(#[trigger] commands[k], tx_channel) || touches_only(
                    commands[k],
                    rx_channel,
                )
            &&& forall|k: int| 0 <= k < len - 2 ==> !#[trigger] enables(commands[k])
            &&& commands[len - 2] == Command::Write(Register::Ge, channel_mask(rx_channel))
            &&& commands[len - 1] == Command::Write(Register::Ge, channel_mask(tx_channel))
        }),
{
    let commands = full_duplex_commands(
        tx_channel,
        rx_channel,
        tx,
        rx,
        tdr,
        rdr,
        tx_perid,
        rx_perid,
        config,
    );
    assert(commands.len() == 22);
}

/// The bits of two channels are apart, so that a command that switches one
/// channel leaves every other alone.
pub proof fn channel_masks_are_apart(one: u8, other: u8)
    requires
        one < CHANNELS,
        other < CHANNELS,
    ensures
        channel_mask(one) != 0,
        one != other ==> channel_mask(one) & channel_mask(other) == 0,
        one != other ==> channel_mask(one) != channel_mask(other),
{
    assert(1u32 << one != 0) by (bit_vector)
        requires
            one < 24,
    ;
    assert(one != other ==> (1u32 << one) & (1u32 << other) == 0 && 1u32 << one != 1u32 << other)
        by (bit_vector)
        requires
            one < 24,
            other < 24,
    ;
}

/// What a new manager writes to disable the channels holds the bit of every
/// hardware channel, and no other bit.
pub proof fn fresh_manager_disables_all(bit: u8)
    requires
        bit < 32,
    ensures
        ALL_CHANNELS & channel_mask(bit) != 0 <==> bit < CHANNELS,
{
    assert(0x00ff_ffffu32 & (1u32 << bit) != 0 <==> bit < 24) by (bit_vector)
        requires
            bit < 32,
    ;
}

/// Cancelling a transfer disables each of its channels, and touches nothing
/// but them.
pub proof fn cancelling_disables_every_channel(transfer: TransferState)
    ensures
        ({
            let commands = transfer.cancel_commands();
            &&& commands.contains(Command::Write(Register::Gd, channel_mask(transfer.primary)))
            &&& transfer.secondary matches Some(secondary) ==> commands.contains(
                Command::Write(Register::Gd, channel_mask(secondary)),
            )
            &&& forall|k: int|
                0 <= k < commands.len() ==> touches_only(#[trigger] commands[k], transfer.primary)
                    || (transfer.secondary matches Some(secondary) && touches_only(
                    commands[k],
                    secondary,
                ))
        }),
{
    let commands = transfer.cancel_commands();
    assert(commands[0] == Command::Write(Register::Gd, channel_mask(transfer.primary)));
    if let Some(secondary) = transfer.secondary {
        assert(commands[1] == Command::Write(Register::Gd, channel_mask(secondary)));
    }
}

/// The configuration word tells its fields apart: two that are equal were
/// made of the same fields.
pub proof fn configuration_word_keeps_its_fields(
    peripheral: (bool, bool),
    per_to_mem: (bool, bool),
    width: (DataWidth, DataWidth),
    src_moves: (bool, bool),
    dst_moves: (bool, bool),
    perid: (u8, u8),
)
    requires
        cc_word(peripheral.0, per_to_mem.0, width.0, src_moves.0, dst_moves.0, perid.0) == cc_word(
            peripheral.1,
            per_to_mem.1,
            width.1,
            src_moves.1,
            dst_moves.1,
            perid.1,
        ),
    ensures
        peripheral.0 == peripheral.1,
        per_to_mem.0 == per_to_mem.1,
        width.0 == width.1,
        src_moves.0 == src_moves.1,
        dst_moves.0 == dst_moves.1,
        perid.0 == perid.1,
{
}

/// Some command of `commands` tells channel `index` how many items to move,
/// and what it tells is `items`.
pub open spec fn moves(commands: Seq<Command>, index: u8, items: int) -> bool {
    &&& exists|k: int| 0 <= k < commands.len() && #[trigger] sets_length(commands[k], index)
    &&& forall|k: int|
        0 <= k < commands.len() && #[trigger] sets_length(commands[k], index) ==> (
        commands[k] matches Command::Write(_, word) && word == items)
}

/// The command writes the microblock length of channel `index`.
pub open spec fn sets_length(command: Command, index: u8) -> bool {
    command matches Command::Write(Register::Channel(number, ChannelRegister::Cubc), _) && number
        == index
}

/// The whole items in `len` bytes are `len` divided by the bytes of an item.
/// Together they are all of the bytes but for a remainder that does not fill
/// an item.
pub proof fn items_fit_in_their_bytes(width: DataWidth, len: nat)
    ensures
        width.items(len) == len / width.bytes(),
        width.items(len) * width.bytes() <= len,
        len < (width.items(len) + 1) * width.bytes(),
{
    match width {
        DataWidth::Byte => {
            assert(len / 1 == len);
        },
        DataWidth::HalfWord => {
            assert(width.items(len) * 2 <= len < (width.items(len) + 1) * 2);
        },
        DataWidth::Word => {
            assert(width.items(len) * 4 <= len < (width.items(len) + 1) * 4);
        },
    }
}

/// A copy that is not refused stays inside both buffers, whatever the width of
/// an item: what the controller is told to move fits in the source and in the
/// destination, and leaves out less than an item of the source.
pub proof fn copy_stays_in_its_buffers(
    channel: u8,
    src: Region,
    dst: Region,
    config: TransferConfig,
)
    requires
        memcpy_refusal(src.len as nat, dst.len as nat) is None,
    ensures
        ({
            let width = config.width;
            let items = width.items(src.len as nat);
            &&& moves(memcpy_commands(channel, src, dst, config), channel, items as int)
            &&& items <= UBLEN_MAX
            &&& items * width.bytes() <= src.len
            &&& items * width.bytes() <= dst.len
            &&& src.len < (items + 1) * width.bytes()
        }),
{
    items_fit_in_their_bytes(config.width, src.len as nat);
    assert(sets_length(memcpy_commands(channel, src, dst, config)[7], channel));
}

/// A transfer to or from a peripheral that is not refused stays inside its
/// buffer, whatever the width of an item.
pub proof fn peripheral_transfer_stays_in_its_buffer(
    channel: u8,
    bytes: Region,
    register: u32,
    perid: u8,
    config: TransferConfig,
)
    requires
        length_refusal(bytes.len as nat) is None,
    ensures
        ({
            let items = config.width.items(bytes.len as nat);
            &&& moves(tx_commands(channel, bytes, register, perid, config), channel, items as int)
            &&& moves(rx_commands(channel, bytes, register, perid, config), channel, items as int)
            &&& items <= UBLEN_MAX
            &&& items * config.width.bytes() <= bytes.len
            &&& bytes.len < (items + 1) * config.width.bytes()
        }),
{
    items_fit_in_their_bytes(config.width, bytes.len as nat);
    assert(sets_length(tx_commands(channel, bytes, register, perid, config)[7], channel));
    assert(sets_length(rx_commands(channel, bytes, register, perid, config)[7], channel));
}

/// A full-duplex transfer that is not refused stays inside both its buffers,
/// whatever the width of an item, and moves as much one way as the other.
pub proof fn full_duplex_stays_in_its_buffers(
    tx_channel: u8,
    rx_channel: u8,
    tx: Region,
    rx: Region,
    tdr: u32,
    rdr: u32,
    tx_perid: u8,
    rx_perid: u8,
    config: TransferConfig,
)
    requires
        full_duplex_refusal(tx.len as nat, rx.len as nat) is None,
    ensures
        ({
            let items = config.width.items(tx.len as nat);
            let commands = full_duplex_commands(
                tx_channel,
                rx_channel,
                tx,
                rx,
                tdr,
                rdr,
                tx_perid,
                rx_perid,
                config,
            );
            &&& moves(commands, tx_channel, items as int)
            &&& moves(commands, rx_channel, items as int)
            &&& items <= UBLEN_MAX
            &&& items * config.width.bytes() <= tx.len
            &&& items * config.width.bytes() <= rx.len
        }),
{
    let commands = full_duplex_commands(
        tx_channel,
        rx_channel,
        tx,
        rx,
        tdr,
        rdr,
        tx_perid,
        rx_perid,
        config,
    );
    items_fit_in_their_bytes(config.width, tx.len as nat);
    assert(sets_length(commands[7], rx_channel));
    assert(sets_length(commands[17], tx_channel));
}

// ---------------------------------------------------------------------------
// Waiting
// ---------------------------------------------------------------------------

/// The transfer after the first `upto` readings.
pub open spec fn after_all(
    transfer: TransferState,
    readings: Seq<StatusReading>,
    upto: int,
) -> TransferState
    decreases upto,
{
    if upto <= 0 {
        transfer
    } else {
        after_all(transfer, readings, upto - 1).after(readings[upto - 1])
    }
}

/// What waiting comes to at the reading with number `at`, if it got there.
pub open spec fn wait_at(
    transfer: TransferState,
    readings: Seq<StatusReading>,
    at: int,
) -> Option<Result<(), DmaError>> {
    after_all(transfer, readings, at).wait_outcome(readings[at])
}

/// The primary channel reports the end of its block in the reading.
pub open spec fn primary_ends(reading: StatusReading) -> bool {
    decode(reading.primary).block_complete
}

/// The secondary channel reports the end of its block in the reading.
pub open spec fn secondary_ends(reading: StatusReading) -> bool {
    reading.secondary matches Some(bits) && decode(bits).block_complete
}

/// Some channel reports an error in the reading.
pub open spec fn shows_error(reading: StatusReading) -> bool {
    decode(reading.primary).failed() || (reading.secondary matches Some(bits) && decode(
        bits,
    ).failed())
}

/// A transfer is complete when each of its channels has reported the end of
/// its block in some reading, the same or different ones, and not before.
pub proof fn complete_when_every_channel_has_reported(
    transfer: TransferState,
    readings: Seq<StatusReading>,
    upto: int,
)
    requires
        0 <= upto <= readings.len(),
    ensures
        after_all(transfer, readings, upto).primary == transfer.primary,
        after_all(transfer, readings, upto).secondary == transfer.secondary,
        after_all(transfer, readings, upto).complete() <==> {
            &&& transfer.primary_done || exists|k: int|
                0 <= k < upto && #[trigger] primary_ends(readings[k])
            &&& transfer.secondary is Some ==> transfer.secondary_done || exists|k: int|
                0 <= k < upto && #[trigger] secondary_ends(readings[k])
        },
{
    lemma_reports_are_kept(transfer, readings, upto);
}

proof fn lemma_reports_are_kept(
    transfer: TransferState,
    readings: Seq<StatusReading>,
    upto: int,
)
    requires
        0 <= upto <= readings.len(),
    ensures
        ({
            let now = after_all(transfer, readings, upto);
            &&& now.primary == transfer.primary
            &&& now.secondary == transfer.secondary
            &&& now.primary_done == (transfer.primary_done || exists|k: int|
                0 <= k < upto && #[trigger] primary_ends(readings[k]))
            &&& now.secondary_done == (transfer.secondary_done || exists|k: int|
                0 <= k < upto && #[trigger] secondary_ends(readings[k]))
            &&& now.failed == (transfer.failed || exists|k: int|
                0 <= k < upto && #[trigger] shows_error(readings[k]))
        }),
    decreases upto,
{
    if upto > 0 {
        lemma_reports_are_kept(transfer, readings, upto - 1);
        let before = after_all(transfer, readings, upto - 1);
        let now = after_all(transfer, readings, upto);
        let last = readings[upto - 1];
        assert(now == before.after(last));
        assert(now.primary_done == (before.primary_done || primary_ends(readings[upto - 1])));
        assert(now.secondary_done == (before.secondary_done || secondary_ends(
            readings[upto - 1],
        )));
        assert(before.reported(last).failed() == shows_error(readings[upto - 1]));
        assert(now.failed == (before.failed || shows_error(readings[upto - 1])));
    }
}

/// Waiting ends when the transfer completes: if no reading shows an error and
/// by reading `at` every channel has reported the end of its block, waiting
/// has succeeded at that reading or at an earlier one, and has not failed.
pub proof fn waiting_ends_when_the_transfer_completes(
    transfer: TransferState,
    readings: Seq<StatusReading>,
    at: int,
)
    requires
        0 <= at < readings.len(),
        !transfer.failed,
        forall|k: int| 0 <= k <= at ==> !#[trigger] shows_error(readings[k]),
        transfer.primary_done || exists|k: int|
            0 <= k <= at && #[trigger] primary_ends(readings[k]),
        transfer.secondary is Some ==> transfer.secondary_done || exists|k: int|
            0 <= k <= at && #[trigger] secondary_ends(readings[k]),
    ensures
        wait_at(transfer, readings, at) == Some(Ok::<(), DmaError>(())),
        forall|k: int|
            0 <= k <= at ==> {
                ||| #[trigger] wait_at(transfer, readings, k) is None
                ||| wait_at(transfer, readings, k) == Some(Ok::<(), DmaError>(()))
            },
{
    lemma_reports_are_kept(transfer, readings, at);
    lemma_reports_are_kept(transfer, readings, at + 1);
    assert(!shows_error(readings[at]));
    assert(after_all(transfer, readings, at + 1) == after_all(transfer, readings, at).after(
        readings[at],
    ));
    assert forall|k: int| 0 <= k <= at implies {
        ||| #[trigger] wait_at(transfer, readings, k) is None
        ||| wait_at(transfer, readings, k) == Some(Ok::<(), DmaError>(()))
    } by {
        assert(!shows_error(readings[k]));
    }
}

/// Waiting fails at a reading that shows an error, and at no other. What comes
/// out is what that reading shows, whatever earlier ones showed and whether or
/// not the transfer is complete.
pub proof fn waiting_fails_with_the_error_at_hand(
    transfer: TransferState,
    readings: Seq<StatusReading>,
    at: int,
)
    requires
        0 <= at < readings.len(),
    ensures
        shows_error(readings[at]) ==> wait_at(transfer, readings, at) == Some(
            Err::<(), DmaError>(DmaError::Transfer(transfer.reported(readings[at]))),
        ),
        !shows_error(readings[at]) ==> !(wait_at(transfer, readings, at) matches Some(outcome)
            && outcome is Err),
{
}

/// Waiting succeeds at a reading without error that shows the end of block of
/// all channels, and at one by which all channels have reported it and none
/// has reported an error; at no other.
pub proof fn waiting_succeeds_without_error(
    transfer: TransferState,
    readings: Seq<StatusReading>,
    at: int,
)
    requires
        0 <= at < readings.len(),
    ensures
        wait_at(transfer, readings, at) == Some(Ok::<(), DmaError>(())) <==> {
            &&& !shows_error(readings[at])
            &&& {
                ||| transfer.reported(readings[at]).complete()
                ||| {
                    &&& after_all(transfer, readings, at + 1).complete()
                    &&& !transfer.failed
                    &&& forall|k: int| 0 <= k < at ==> !#[trigger] shows_error(readings[k])
                }
            }
        },
{
    lemma_reports_are_kept(transfer, readings, at);
    assert(after_all(transfer, readings, at + 1) == after_all(transfer, readings, at).after(
        readings[at],
    ));
}

/// A one-channel transfer that has not yet reported the end of its block is
/// waited for up to the first reading that has bit 0, 4, 5 or 6 set. There it
/// fails with what the reading shows, if that is an error, and succeeds else.
/// Errors in readings from before the waiting do not matter.
pub proof fn one_channel_waits_for_its_first_report(
    transfer: TransferState,
    readings: Seq<StatusReading>,
    first: int,
)
    requires
        transfer.secondary is None,
        !transfer.primary_done,
        0 <= first < readings.len(),
        forall|k: int| 0 <= k <= first ==> (#[trigger] readings[k]).secondary is None,
        forall|k: int| 0 <= k < first ==> (#[trigger] readings[k]).primary & 0x71 == 0,
        readings[first].primary & 0x71 != 0,
    ensures
        forall|k: int| 0 <= k < first ==> #[trigger] wait_at(transfer, readings, k) is None,
        wait_at(transfer, readings, first) == Some(
            if readings[first].primary & 0x70 != 0 {
                Err(DmaError::Transfer(transfer.reported(readings[first])))
            } else {
                Ok(())
            },
        ),
{
    assert forall|k: int| 0 <= k < first implies #[trigger] wait_at(
        transfer,
        readings,
        k,
    ) is None by {
        lemma_reports_are_kept(transfer, readings, k);
        lemma_report_bits(readings[k].primary);
        assert forall|j: int| 0 <= j < k implies !#[trigger] primary_ends(readings[j]) by {
            lemma_report_bits(readings[j].primary);
        }
    }
    lemma_report_bits(readings[first].primary);
    assert(readings[first].secondary is None);
}

proof fn lemma_report_bits(bits: u32)
    ensures
        bits & 0x71 != 0 <==> decode(bits).failed() || decode(bits).block_complete,
        bits & 0x70 != 0 <==> decode(bits).failed(),
{
    status_bits(bits);
    assert(bits & 0x71 != 0 <==> (bits & 0x70 != 0 || bits & 0x01 != 0)) by (bit_vector);
}

/// Waiting goes on at a reading that shows neither an error nor the end of
/// block of all channels, as long as some channel has not yet reported its end
/// of block, or an earlier reading showed an error; and at no other.
pub proof fn waiting_goes_on_until_then(
    transfer: TransferState,
    readings: Seq<StatusReading>,
    at: int,
)
    requires
        0 <= at < readings.len(),
    ensures
        wait_at(transfer, readings, at) is None <==> {
            &&& !shows_error(readings[at])
            &&& !transfer.reported(readings[at]).complete()
            &&& {
                ||| !after_all(transfer, readings, at + 1).complete()
                ||| transfer.failed
                ||| exists|k: int| 0 <= k < at && #[trigger] shows_error(readings[k])
            }
        },
{
    lemma_reports_are_kept(transfer, readings, at);
    assert(after_all(transfer, readings, at + 1) == after_all(transfer, readings, at).after(
        readings[at],
    ));
}

/// A channel reports an error when one of the bits 4, 5 and 6 of its status
/// word is set, and the end of its block when bit 0 is.
pub proof fn status_bits(bits: u32)
    ensures
        decode(bits).failed() <==> bits & 0x70 != 0,
        decode(bits).block_complete <==> bits & 0x01 != 0,
{
    assert((bits & 0x70 != 0) == (bits / 16 % 2 == 1 || bits / 32 % 2 == 1 || bits / 64 % 2 == 1))
        by (bit_vector);
    assert((bits & 0x01 != 0) == (bits % 2 == 1)) by (bit_vector);
}

// ---------------------------------------------------------------------------
// Capture
// ---------------------------------------------------------------------------

/// A sample that is asked for has its place inside the buffer, and the sample
/// that comes `len / 3` samples later in a continuous capture has the same.
pub proof fn samples_stay_in_the_buffer(capture: Capture)
    requires
        capture.wf(),
        capture.ready(),
    ensures
        capture.rx matches Some(rx) && 0 <= capture.offset && capture.offset + 3 <= rx.len
            && (capture.continuous ==> capture.offset == (3 * (capture.samples + rx.len / 3)) % (
        rx.len as int)),
{
    if let Some(rx) = capture.rx {
        assert(3 * (capture.samples + rx.len / 3) == rx.len + 3 * capture.samples);
        vstd::arithmetic::div_mod::lemma_mod_add_multiples_vanish(
            3 * capture.samples,
            rx.len as int,
        );
    }
}

/// One transfer is in flight at a time: while one is, no sample is asked for.
pub proof fn one_sample_at_a_time(capture: Capture)
    requires
        capture.in_flight,
    ensures
        !capture.ready(),
        !capture.begun().ready(),
{
}

/// The end of the buffer is announced with each sample that makes the number
/// of samples a multiple of what the buffer has room for, and with no other.
pub proof fn buffer_end_is_announced(capture: Capture)
    requires
        capture.wf(),
        capture.in_flight,
    ensures
        capture.rx matches Some(rx) && (capture.at_last() <==> (3 * (capture.samples + 1)) % (
        rx.len as int) == 0),
{
    if let Some(rx) = capture.rx {
        let len = rx.len as int;
        if capture.continuous {
            crate::capture::lemma_next_place(capture.samples, len);
        } else {
            vstd::arithmetic::div_mod::lemma_small_mod((3 * capture.samples) as nat, len as nat);
            crate::capture::lemma_next_place(capture.samples, len);
        }
    }
}

/// After an error no sample is asked for, and a new capture may be started.
pub proof fn error_stops_the_capture(capture: Capture, error: CaptureError, len: int)
    requires
        len > 0,
        len % 3 == 0,
    ensures
        !capture.failed(error).ready(),
        capture.failed(error).start_refusal(len) is None,
{
}

} // verus!
