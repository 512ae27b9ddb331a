//! What each call does to a capture, told from the outside: where the samples
//! go, by their number, and what is said when.

use crate::buffer::{slice_addr, Region};
use crate::capture::{
    announces_sample, start_capture, Capture, CaptureAction, CaptureError, CaptureProgress,
    CaptureStartError, CaptureState, DmaTransfer,
};
use crate::effects::{has_end, has_error};
use vstd::prelude::*;

verus! {

/// The capture has a buffer, which is not full, and no error.
pub open spec fn wants_samples(capture: Capture) -> bool {
    capture.rx is Some && !capture.done && capture.error is None
}

/// What is sent is three zeros.
pub open spec fn sends_zeros(capture: Capture) -> bool {
    &&& capture.dummy.len() == 3
    &&& capture.dummy[0] == 0
    &&& capture.dummy[1] == 0
    &&& capture.dummy[2] == 0
}

/// No transfer is under way, and nothing is noted of one.
pub open spec fn at_rest(capture: Capture) -> bool {
    !capture.in_flight && !capture.rx_done && !capture.tx_done
}

/// The place of the next sample in a buffer of `len` bytes: behind those that
/// are there, and at the start again after the last if the capture is
/// continuous.
pub open spec fn place(capture: Capture, len: int) -> int {
    if capture.continuous {
        (3 * capture.samples) % len
    } else {
        3 * capture.samples
    }
}

/// The buffer, the number of samples and the way the capture goes on are as
/// they were.
pub open spec fn same_samples(before: Capture, after: Capture) -> bool {
    &&& after.continuous == before.continuous
    &&& after.rx == before.rx
    &&& after.samples == before.samples
    &&& after.done == before.done
    &&& after.dummy == before.dummy
}

/// A new capture has no buffer, no samples and no error, and goes on as it was
/// told.
pub proof fn making_a_capture(continuous: bool, state: CaptureState)
    requires
        call_ensures(CaptureState::new, (continuous,), state),
    ensures
        state@.wf(),
        state@.continuous == continuous,
        state@.rx is None,
        state@.samples == 0,
        !state@.done,
        state@.error is None,
        at_rest(state@),
        sends_zeros(state@),
{
}

/// A capture that wants samples is busy. Else a buffer is taken if it holds a
/// whole number of samples and at least one, and the capture begins anew in
/// it. A refusal changes nothing.
pub open spec fn takes_buffer(
    before: Capture,
    after: Capture,
    rx: Region,
    armed: Result<(), CaptureStartError>,
) -> bool {
    match armed {
        Ok(_) => {
            &&& !wants_samples(before)
            &&& rx.len > 0
            &&& rx.len % 3 == 0
            &&& after.continuous == before.continuous
            &&& after.rx == Some(rx)
            &&& after.samples == 0
            &&& !after.done
            &&& after.error is None
            &&& at_rest(after)
            &&& sends_zeros(after)
        },
        Err(error) => {
            &&& after == before
            &&& wants_samples(before) ==> error == CaptureStartError::Busy
            &&& !wants_samples(before) && rx.len == 0 ==> error == CaptureStartError::EmptyBuffer
            &&& !wants_samples(before) && rx.len != 0 ==> rx.len % 3 != 0 && error
                == CaptureStartError::MisalignedBuffer
        },
    }
}

/// Arming takes the buffer, as [`takes_buffer`] says.
pub proof fn arming(state: &mut CaptureState, rx: Region, armed: Result<(), CaptureStartError>)
    requires
        call_ensures(CaptureState::arm, (state, rx), armed),
    ensures
        final(state)@.wf(),
        takes_buffer(old(state)@, final(state)@, rx, armed),
{
}

/// Starting a capture takes the slice where it lies, as [`takes_buffer`] says,
/// with all of its bytes zero; one that is refused is as it was.
pub proof fn starting_a_capture(
    state: &mut CaptureState,
    rx: &'static mut [u8],
    started: Result<(), CaptureStartError>,
)
    requires
        call_ensures(start_capture, (state, rx), started),
    ensures
        final(state)@.wf(),
        started is Ok ==> exists|region: Region|
            {
                &&& #[trigger] takes_buffer(old(state)@, final(state)@, region, started)
                &&& region.len == old(rx)@.len()
                &&& call_ensures(slice_addr, (&*old(rx),), region.addr)
            },
        started is Err ==> forall|region: Region|
            region.len == old(rx)@.len() ==> #[trigger] takes_buffer(
                old(state)@,
                final(state)@,
                region,
                started,
            ),
        final(rx)@.len() == old(rx)@.len(),
        started is Ok ==> forall|k: int| 0 <= k < final(rx)@.len() ==> final(rx)@[k] == 0,
        started is Err ==> final(rx)@ == old(rx)@,
{
    if started is Ok {
        let region: Region = choose|region: Region| #[trigger]
            old(state)@.started(region) == final(state)@ && region.len == old(rx)@.len()
                && call_ensures(slice_addr, (&*old(rx),), region.addr);
        assert(takes_buffer(old(state)@, final(state)@, region, started));
    }
}

/// A sample is fetched if the capture wants one and none is on its way. It is
/// three bytes, and goes to the place that its number gives, which lies inside
/// the buffer. From then on it is on its way, and nothing else has changed.
pub open spec fn fetches(before: Capture, after: Capture, transfer: Option<DmaTransfer>) -> bool {
    match transfer {
        Some(sample) => {
            &&& wants_samples(before)
            &&& !before.in_flight
            &&& sample.len == 3
            &&& before.rx matches Some(rx) && {
                &&& 0 <= place(before, rx.len as int)
                &&& place(before, rx.len as int) + 3 <= rx.len
                &&& sample.rx_addr == (rx.addr + place(before, rx.len as int)) % 0x1_0000_0000
            }
            &&& same_samples(before, after)
            &&& after.error is None
            &&& after.in_flight
            &&& !after.rx_done
            &&& !after.tx_done
        },
        None => after == before && (!wants_samples(before) || before.in_flight),
    }
}

proof fn lemma_fetches(before: Capture, after: Capture, transfer: Option<DmaTransfer>)
    requires
        before.wf(),
        crate::capture::begins(before, after, transfer),
    ensures
        fetches(before, after, transfer),
{
}

/// An announced sample is fetched as [`fetches`] says, with the dummy bytes of
/// the capture.
pub proof fn beginning_a_sample(state: &mut CaptureState, transfer: Option<DmaTransfer>)
    requires
        old(state)@.wf(),
        call_ensures(CaptureState::begin_sample, (state,), transfer),
    ensures
        final(state)@.wf(),
        fetches(old(state)@, final(state)@, transfer),
        sends_zeros(old(state)@),
        transfer matches Some(sample) ==> exists|bytes: &[u8]| #[trigger]
            call_ensures(slice_addr, (bytes,), sample.tx_addr) && bytes@ == old(state)@.dummy,
{
    lemma_fetches(old(state)@, final(state)@, transfer);
}

/// The same with dummy bytes at a known address.
pub proof fn beginning_a_sample_from(
    state: &mut CaptureState,
    tx_addr: u32,
    transfer: Option<DmaTransfer>,
)
    requires
        old(state)@.wf(),
        call_ensures(CaptureState::begin_sample_from, (state, tx_addr), transfer),
    ensures
        final(state)@.wf(),
        fetches(old(state)@, final(state)@, transfer),
        transfer matches Some(sample) ==> sample.tx_addr == tx_addr,
{
    lemma_fetches(old(state)@, final(state)@, transfer);
}

/// Two samples of a capture go to places that are apart, unless a whole round
/// of the buffer or more lies between them: neither overwrites the other. The
/// buffer lies inside the address space.
pub proof fn samples_do_not_overlap(
    one: &mut CaptureState,
    first: DmaTransfer,
    other: &mut CaptureState,
    second: DmaTransfer,
    rx: Region,
    tx_addr: u32,
)
    requires
        old(one)@.wf(),
        old(other)@.wf(),
        call_ensures(CaptureState::begin_sample_from, (one, tx_addr), Some(first)),
        call_ensures(CaptureState::begin_sample_from, (other, tx_addr), Some(second)),
        old(one)@.rx == Some(rx),
        old(other)@.rx == Some(rx),
        old(one)@.continuous == old(other)@.continuous,
        old(one)@.samples < old(other)@.samples,
        old(one)@.continuous ==> 3 * (old(other)@.samples - old(one)@.samples) < rx.len,
        rx.addr + rx.len <= 0x1_0000_0000,
    ensures
        rx.addr <= first.rx_addr,
        first.rx_addr + 3 <= rx.addr + rx.len,
        rx.addr <= second.rx_addr,
        second.rx_addr + 3 <= rx.addr + rx.len,
        first.rx_addr + 3 <= second.rx_addr || second.rx_addr + 3 <= first.rx_addr,
        !old(one)@.continuous ==> second.rx_addr - first.rx_addr == 3 * (old(other)@.samples
            - old(one)@.samples),
{
    lemma_fetches(old(one)@, final(one)@, Some(first));
    lemma_fetches(old(other)@, final(other)@, Some(second));
    let (one, other) = (old(one)@, old(other)@);
    let len = rx.len as int;
    let a = place(one, len);
    let b = place(other, len);
    assert(rx.addr + a < 0x1_0000_0000 && rx.addr + b < 0x1_0000_0000);
    if one.continuous {
        let gap = 3 * (other.samples - one.samples);
        let turns = (3 * one.samples) / len;
        vstd::arithmetic::div_mod::lemma_fundamental_div_mod(3 * one.samples, len);
        if a + gap < len {
            assert(3 * other.samples == turns * len + (a + gap)) by (nonlinear_arith)
                requires
                    3 * one.samples == len * turns + a,
                    gap == 3 * (other.samples - one.samples),
            ;
            vstd::arithmetic::div_mod::lemma_fundamental_div_mod_converse(
                3 * other.samples,
                len,
                turns,
                a + gap,
            );
        } else {
            assert(3 * other.samples == (turns + 1) * len + (a + gap - len)) by (nonlinear_arith)
                requires
                    3 * one.samples == len * turns + a,
                    gap == 3 * (other.samples - one.samples),
            ;
            vstd::arithmetic::div_mod::lemma_fundamental_div_mod_converse(
                3 * other.samples,
                len,
                turns + 1,
                a + gap - len,
            );
        }
    }
}

/// An error ends the capture, and what was noted of a transfer is dropped.
pub open spec fn ends_with(before: Capture, after: Capture, error: CaptureError) -> bool {
    &&& same_samples(before, after)
    &&& after.error == Some(error)
    &&& at_rest(after)
}

/// What the channels report is taken in.
///
/// An error ends the capture. Without a transfer under way nothing else
/// counts. A channel that is done stays done until the other is too; then the
/// sample is there and counted, and the next may come. The end of the buffer
/// is told with each sample that makes their number a multiple of those that
/// the buffer holds, and there a capture that is not continuous is done.
pub open spec fn takes_report(
    before: Capture,
    after: Capture,
    rx_done: bool,
    tx_done: bool,
    error: Option<CaptureError>,
    progress: CaptureProgress,
) -> bool {
    match error {
        Some(error) => ends_with(before, after, error) && progress == CaptureProgress::Failed(
            error,
        ),
        None => if !before.in_flight {
            after == before && progress == CaptureProgress::Idle
        } else if (before.rx_done || rx_done) && (before.tx_done || tx_done) {
            before.rx matches Some(rx) && {
                let samples = before.samples + 1;
                let full = (3 * samples) % (rx.len as int) == 0;
                &&& after.continuous == before.continuous
                &&& after.rx == before.rx
                &&& after.samples == samples
                &&& after.done == (full && !before.continuous)
                &&& after.error is None
                &&& after.dummy == before.dummy
                &&& at_rest(after)
                &&& progress == if full {
                    CaptureProgress::BufferComplete { samples: samples as usize }
                } else {
                    CaptureProgress::SampleComplete
                }
            }
        } else {
            &&& same_samples(before, after)
            &&& after.error is None
            &&& after.in_flight
            &&& after.rx_done == (before.rx_done || rx_done)
            &&& after.tx_done == (before.tx_done || tx_done)
            &&& progress == CaptureProgress::Partial
        },
    }
}

proof fn lemma_takes_report(
    before: Capture,
    rx_done: bool,
    tx_done: bool,
    error: Option<CaptureError>,
)
    requires
        before.wf(),
    ensures
        takes_report(
            before,
            before.marked(rx_done, tx_done, error),
            rx_done,
            tx_done,
            error,
            before.progress(rx_done, tx_done, error),
        ),
{
    if before.in_flight {
        crate::laws::buffer_end_is_announced(before);
    }
}

/// Marking takes the report in, as [`takes_report`] says.
pub proof fn marking(
    state: &mut CaptureState,
    rx_done: bool,
    tx_done: bool,
    error: Option<CaptureError>,
    progress: CaptureProgress,
)
    requires
        old(state)@.wf(),
        call_ensures(CaptureState::mark_dma_status, (state, rx_done, tx_done, error), progress),
    ensures
        final(state)@.wf(),
        takes_report(old(state)@, final(state)@, rx_done, tx_done, error, progress),
{
    lemma_takes_report(old(state)@, rx_done, tx_done, error);
}

/// Status words are taken in as [`takes_report`] says: a channel is done when
/// its word has the bit of the end of the block, and an error is one of the
/// receiving channel if its word has an error bit, else of the transmitting
/// one if its word has.
pub proof fn taking_status_words(
    state: &mut CaptureState,
    rx_status: u32,
    tx_status: u32,
    progress: CaptureProgress,
)
    requires
        old(state)@.wf(),
        call_ensures(CaptureState::on_status, (state, rx_status, tx_status), progress),
    ensures
        final(state)@.wf(),
        takes_report(
            old(state)@,
            final(state)@,
            has_end(rx_status),
            has_end(tx_status),
            if has_error(rx_status) {
                Some(CaptureError::RxDma(rx_status))
            } else if has_error(tx_status) {
                Some(CaptureError::TxDma(tx_status))
            } else {
                None
            },
            progress,
        ),
{
    crate::effects::lemma_error_bits(rx_status);
    crate::effects::lemma_error_bits(tx_status);
    lemma_takes_report(
        old(state)@,
        has_end(rx_status),
        has_end(tx_status),
        crate::capture::error_in(rx_status, tx_status),
    );
}

/// A failure ends the capture.
pub proof fn failing(state: &mut CaptureState, error: CaptureError)
    requires
        call_ensures(CaptureState::fail, (state, error), ()),
    ensures
        final(state)@.wf(),
        ends_with(old(state)@, final(state)@, error),
{
}

/// A capture may be asked for anything at any time, but for one sample more
/// than can be counted.
pub proof fn a_capture_may_be_called(
    state: &mut CaptureState,
    rx: Region,
    slice: &'static mut [u8],
    addr: u32,
    word: u32,
    flag: bool,
    error: CaptureError,
)
    requires
        old(state)@.wf(),
        old(state)@.samples < usize::MAX,
    ensures
        call_requires(CaptureState::new, (flag,)),
        call_requires(CaptureState::arm, (state, rx)),
        call_requires(start_capture, (state, slice)),
        call_requires(CaptureState::begin_sample, (state,)),
        call_requires(CaptureState::begin_sample_from, (state, addr)),
        call_requires(CaptureState::mark_dma_status, (state, flag, flag, None)),
        call_requires(CaptureState::mark_dma_status, (state, flag, !flag, None)),
        call_requires(CaptureState::mark_dma_status, (state, flag, flag, Some(error))),
        call_requires(CaptureState::on_status, (state, addr, word)),
        call_requires(CaptureState::fail, (state, error)),
        call_requires(announces_sample, (word,)),
{
}

/// The number of samples and the way of going on are those of the capture.
pub proof fn asking_a_capture(state: &CaptureState, samples: usize, continuous: bool)
    requires
        call_ensures(CaptureState::samples, (state,), samples),
        call_ensures(CaptureState::is_continuous, (state,), continuous),
    ensures
        samples == state@.samples,
        continuous == state@.continuous,
{
}

/// A capture is to be stopped when it failed, at once, and when its buffer is
/// full and it is not continuous, after the last byte; and at no other time.
pub proof fn acting(progress: CaptureProgress, continuous: bool, action: CaptureAction)
    requires
        call_ensures(CaptureProgress::action, (progress, continuous), action),
    ensures
        progress is Failed ==> action == (CaptureAction::Stop { after_last_byte: false }),
        progress is BufferComplete && !continuous ==> action == (CaptureAction::Stop {
            after_last_byte: true,
        }),
        progress is BufferComplete && continuous ==> action == CaptureAction::GoOn,
        !(progress is Failed) && !(progress is BufferComplete) ==> action == CaptureAction::GoOn,
{
}

/// A sample is announced by the fifth pin, counted from zero, and by no other.
pub proof fn announcing(pins: u32, announced: bool)
    requires
        call_ensures(announces_sample, (pins,), announced),
    ensures
        announced <==> pins & 0x20 != 0,
{
    assert((pins & 0x20 != 0) == (pins / 32 % 2 == 1)) by (bit_vector);
}

} // verus!
