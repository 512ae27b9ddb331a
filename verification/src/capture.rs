//! Capture of fixed-size samples over full-duplex SPI, one DMA transfer each.
//!
//! A converter announces a sample; [`CaptureState::begin_sample`] says which
//! transfer to start for it; the interrupt status of the two channels comes
//! back through [`CaptureState::on_status`]. The samples go to a buffer one
//! after the other. SPI TX sends dummy bytes only.

use crate::buffer::{slice_addr, Region};
use crate::status::{decode, ChannelStatus};
use vstd::prelude::*;

verus! {

/// Number of bytes in a sample.
pub const SAMPLE_BYTES: usize = 3;

/// The pin, among those of its bank, by which the converter announces a sample.
const DRDY_PIN: u8 = 5;

/// What is sent while a sample is received.
const DUMMY_TX_BYTE: u8 = 0x00;

/// Why a capture is not started.
#[derive(Clone, Copy, Debug, PartialEq, Eq, Structural)]
pub enum CaptureStartError {
    /// A capture is under way.
    Busy,
    /// There is no room for a sample.
    EmptyBuffer,
    /// The buffer does not hold a whole number of samples.
    MisalignedBuffer,
}

/// Why a capture failed, with the status word of the channel.
#[derive(Clone, Copy, Debug, PartialEq, Eq, Structural)]
pub enum CaptureError {
    /// The receiving channel reported an error.
    RxDma(u32),
    /// The transmitting channel reported an error.
    TxDma(u32),
}

/// What the status of the channels means for the capture.
#[derive(Clone, Copy, Debug, PartialEq, Eq, Structural)]
pub enum CaptureProgress {
    /// No transfer was in flight.
    Idle,
    /// One of the channels is not done yet.
    Partial,
    /// The sample is there.
    SampleComplete,
    /// The sample is there and was the last that the buffer has room for.
    BufferComplete {
        /// Number of samples since the capture was started.
        samples: usize,
    },
    /// A channel reported an error.
    Failed(CaptureError),
}

/// What is to be done about the progress of a capture.
#[derive(Clone, Copy, Debug, PartialEq, Eq, Structural)]
pub enum CaptureAction {
    /// Nothing: the channels stay as they are.
    GoOn,
    /// Disable the channels and release the chip select.
    Stop {
        /// Wait until the last byte has been sent before the chip select goes.
        after_last_byte: bool,
    },
}

impl CaptureProgress {
    /// Returns what is to be done: the capture is to be stopped when the
    /// buffer is full, unless it is `continuous`, and when it failed.
    pub fn action(self, continuous: bool) -> (action: CaptureAction)
        ensures
            action == match self {
                CaptureProgress::BufferComplete { .. } if !continuous => CaptureAction::Stop {
                    after_last_byte: true,
                },
                CaptureProgress::Failed(_) => CaptureAction::Stop { after_last_byte: false },
                _ => CaptureAction::GoOn,
            },
    {
        match self {
            CaptureProgress::BufferComplete { samples: _ } => if continuous {
                CaptureAction::GoOn
            } else {
                CaptureAction::Stop { after_last_byte: true }
            },
            CaptureProgress::Failed(_) => CaptureAction::Stop { after_last_byte: false },
            CaptureProgress::Idle
            | CaptureProgress::Partial
            | CaptureProgress::SampleComplete => CaptureAction::GoOn,
        }
    }
}

/// The transfer that fetches one sample.
#[derive(Clone, Copy, Debug, PartialEq, Eq, Structural)]
pub struct DmaTransfer {
    /// Where the sample goes.
    pub rx_addr: u32,
    /// Where the dummy bytes come from.
    pub tx_addr: u32,
    /// Number of bytes each way.
    pub len: u32,
}

/// A capture, as a whole.
#[verifier::ext_equal]
pub struct Capture {
    /// At the end of the buffer, go on from its start.
    pub continuous: bool,
    /// Where the samples go, once the capture has been started.
    pub rx: Option<Region>,
    /// Where in the buffer the next sample goes.
    pub offset: int,
    /// Number of samples since the capture was started.
    pub samples: int,
    /// A transfer is under way.
    pub in_flight: bool,
    /// The receiving channel is done with it.
    pub rx_done: bool,
    /// The transmitting channel is done with it.
    pub tx_done: bool,
    /// The buffer is full.
    pub done: bool,
    /// Why the capture failed.
    pub error: Option<CaptureError>,
    /// What is sent while a sample is received.
    pub dummy: Seq<u8>,
}

impl Capture {
    /// A capture that has not been started.
    pub open spec fn idle(continuous: bool) -> Capture {
        Capture {
            continuous,
            rx: None,
            offset: 0,
            samples: 0,
            in_flight: false,
            rx_done: false,
            tx_done: false,
            done: false,
            error: None,
            dummy: seq![0u8, 0u8, 0u8],
        }
    }

    /// A capture that was just started.
    pub open spec fn started(self, rx: Region) -> Capture {
        Capture { rx: Some(rx), ..Capture::idle(self.continuous) }
    }

    /// The capture wants samples.
    pub open spec fn running(self) -> bool {
        self.rx is Some && !self.done && self.error is None
    }

    /// Why a capture into a buffer of `len` bytes is not started.
    pub open spec fn start_refusal(self, len: int) -> Option<CaptureStartError> {
        if self.running() {
            Some(CaptureStartError::Busy)
        } else if len == 0 {
            Some(CaptureStartError::EmptyBuffer)
        } else if len % 3 != 0 {
            Some(CaptureStartError::MisalignedBuffer)
        } else {
            None
        }
    }

    /// A transfer for the next sample is to be started now.
    pub open spec fn ready(self) -> bool {
        self.running() && !self.in_flight
    }

    /// The capture with a transfer just started.
    pub open spec fn begun(self) -> Capture {
        Capture { in_flight: true, rx_done: false, tx_done: false, ..self }
    }

    /// The capture after an error.
    pub open spec fn failed(self, error: CaptureError) -> Capture {
        Capture { error: Some(error), in_flight: false, rx_done: false, tx_done: false, ..self }
    }

    /// What the channels report completes the sample.
    pub open spec fn completes(self, rx_done: bool, tx_done: bool) -> bool {
        self.in_flight && (self.rx_done || rx_done) && (self.tx_done || tx_done)
    }

    /// The next sample is the last that the buffer has room for.
    pub open spec fn at_last(self) -> bool {
        self.rx matches Some(rx) && self.offset + 3 >= rx.len
    }

    /// The capture with the sample completed.
    pub open spec fn advanced(self) -> Capture {
        Capture {
            offset: if self.at_last() && self.continuous {
                0
            } else {
                self.offset + 3
            },
            samples: self.samples + 1,
            in_flight: false,
            rx_done: false,
            tx_done: false,
            done: self.done || (self.at_last() && !self.continuous),
            ..self
        }
    }

    /// The capture after the channels' report.
    pub open spec fn marked(
        self,
        rx_done: bool,
        tx_done: bool,
        error: Option<CaptureError>,
    ) -> Capture {
        match error {
            Some(error) => self.failed(error),
            None => if self.completes(rx_done, tx_done) {
                self.advanced()
            } else if self.in_flight {
                Capture {
                    rx_done: self.rx_done || rx_done,
                    tx_done: self.tx_done || tx_done,
                    ..self
                }
            } else {
                self
            },
        }
    }

    /// What the channels' report means.
    pub open spec fn progress(
        self,
        rx_done: bool,
        tx_done: bool,
        error: Option<CaptureError>,
    ) -> CaptureProgress {
        match error {
            Some(error) => CaptureProgress::Failed(error),
            None => if !self.in_flight {
                CaptureProgress::Idle
            } else if !self.completes(rx_done, tx_done) {
                CaptureProgress::Partial
            } else if self.at_last() {
                CaptureProgress::BufferComplete { samples: (self.samples + 1) as usize }
            } else {
                CaptureProgress::SampleComplete
            },
        }
    }

    /// What holds of every capture. The buffer has room for a whole number of
    /// samples, the next of which goes behind those that are there; a capture
    /// is done when the buffer is full, unless it is continuous; a transfer is
    /// in flight only while the capture is running; and what is sent is zeros.
    pub open spec fn wf(self) -> bool {
        &&& self.rx matches Some(rx) ==> {
            &&& 0 < rx.len
            &&& rx.len % 3 == 0
            &&& self.offset % 3 == 0
            &&& 0 <= self.offset <= rx.len
            &&& self.done <==> self.offset == rx.len
            &&& self.offset == if self.continuous {
                (3 * self.samples) % (rx.len as int)
            } else {
                3 * self.samples
            }
        }
        &&& self.rx is None ==> self.samples == 0 && self.offset == 0 && !self.done
        &&& self.in_flight ==> self.running()
        &&& !self.in_flight ==> !self.rx_done && !self.tx_done
        &&& !(self.rx_done && self.tx_done)
        &&& self.samples >= 0
        &&& self.dummy == seq![0u8, 0u8, 0u8]
    }
}

/// The error in the status words of the two channels, the receiving one first.
pub open spec fn error_in(rx_status: u32, tx_status: u32) -> Option<CaptureError> {
    if decode(rx_status).failed() {
        Some(CaptureError::RxDma(rx_status))
    } else if decode(tx_status).failed() {
        Some(CaptureError::TxDma(tx_status))
    } else {
        None
    }
}

/// Tells whether a sample is announced, by the word in which each pin of the
/// bank that has changed has its bit.
pub fn announces_sample(pins: u32) -> (announced: bool)
    ensures
        announced == (pins / 32 % 2 == 1),
{
    assert((pins & (1u32 << 5u8) != 0) == (pins / 32 % 2 == 1)) by (bit_vector);
    pins & (1u32 << DRDY_PIN) != 0
}

/// The state of a capture.
pub struct CaptureState {
    continuous: bool,
    rx: Option<Region>,
    offset: usize,
    sample_index: usize,
    in_flight: bool,
    rx_done: bool,
    tx_done: bool,
    done: bool,
    error: Option<CaptureError>,
    tx_buf: [u8; 3],
}

impl View for CaptureState {
    type V = Capture;

    closed spec fn view(&self) -> Capture {
        Capture {
            continuous: self.continuous,
            rx: self.rx,
            offset: self.offset as int,
            samples: self.sample_index as int,
            in_flight: self.in_flight,
            rx_done: self.rx_done,
            tx_done: self.tx_done,
            done: self.done,
            error: self.error,
            dummy: self.tx_buf@,
        }
    }
}

impl CaptureState {
    /// A capture that has not been started. At the end of its buffer it goes
    /// on from the start if it is to be `continuous`, and else ends.
    pub fn new(continuous: bool) -> (state: CaptureState)
        ensures
            state@ == Capture::idle(continuous),
            state@.wf(),
    {
        CaptureState {
            continuous,
            rx: None,
            offset: 0,
            sample_index: 0,
            in_flight: false,
            rx_done: false,
            tx_done: false,
            done: false,
            error: None,
            tx_buf: [DUMMY_TX_BYTE, DUMMY_TX_BYTE, DUMMY_TX_BYTE],
        }
    }

    /// Tells whether the capture goes on from the start of its buffer.
    pub fn is_continuous(&self) -> (continuous: bool)
        ensures
            continuous == self@.continuous,
    {
        self.continuous
    }

    /// Returns the number of samples since the capture was started.
    pub fn samples(&self) -> (samples: usize)
        ensures
            samples == self@.samples,
    {
        self.sample_index
    }

    /// Returns why a capture into a buffer of `len` bytes is not started.
    fn start_error(&self, len: usize) -> (error: Option<CaptureStartError>)
        ensures
            error == self@.start_refusal(len as int),
    {
        if self.rx.is_some() && !self.done && self.error.is_none() {
            Some(CaptureStartError::Busy)
        } else if len == 0 {
            Some(CaptureStartError::EmptyBuffer)
        } else if len % SAMPLE_BYTES != 0 {
            Some(CaptureStartError::MisalignedBuffer)
        } else {
            None
        }
    }

    /// Starts a capture into the buffer at a known address.
    ///
    /// The capture borrows nothing. The caller keeps the memory alive, and free
    /// for the controller to use, until the capture has ended.
    pub fn arm(&mut self, rx: Region) -> (armed: Result<(), CaptureStartError>)
        requires
            old(self)@.wf(),
        ensures
            final(self)@.wf(),
            match armed {
                Ok(()) => {
                    &&& old(self)@.start_refusal(rx.len as int) is None
                    &&& final(self)@ == old(self)@.started(rx)
                },
                Err(error) => {
                    &&& old(self)@.start_refusal(rx.len as int) == Some(error)
                    &&& final(self)@ == old(self)@
                },
            },
    {
        match self.start_error(rx.len) {
            Some(error) => {
                return Err(error);
            },
            None => {},
        }
        self.rx = Some(rx);
        self.offset = 0;
        self.sample_index = 0;
        self.in_flight = false;
        self.rx_done = false;
        self.tx_done = false;
        self.done = false;
        self.error = None;
        self.tx_buf = [DUMMY_TX_BYTE, DUMMY_TX_BYTE, DUMMY_TX_BYTE];
        proof {
            vstd::arithmetic::div_mod::lemma_small_mod(0, rx.len as nat);
        }
        Ok(())
    }

    /// Returns the transfer to start for the sample that was announced, if
    /// there is one to be started. It sends the dummy bytes from where they
    /// lie.
    pub fn begin_sample(&mut self) -> (transfer: Option<DmaTransfer>)
        requires
            old(self)@.wf(),
        ensures
            final(self)@.wf(),
            begins(old(self)@, final(self)@, transfer),
            transfer matches Some(sample) ==> exists|bytes: &[u8]| #[trigger]
                call_ensures(slice_addr, (bytes,), sample.tx_addr) && bytes@ == old(self)@.dummy,
    {
        let tx_buf = self.tx_buf.as_slice();
        let tx_addr: u32 = slice_addr(tx_buf);
        self.begin_sample_from(tx_addr)
    }

    /// Returns the transfer to start for the sample that was announced, as
    /// [`CaptureState::begin_sample`] does, with dummy bytes at a known address.
    pub fn begin_sample_from(&mut self, tx_addr: u32) -> (transfer: Option<DmaTransfer>)
        requires
            old(self)@.wf(),
        ensures
            final(self)@.wf(),
            begins(old(self)@, final(self)@, transfer),
            transfer matches Some(sample) ==> sample.tx_addr == tx_addr,
    {
        if self.done || self.error.is_some() || self.in_flight {
            return None;
        }
        match self.rx {
            None => None,
            Some(rx) => {
                let offset: u64 = self.offset as u64 % 0x1_0000_0000;
                let rx_addr: u32 = ((rx.addr as u64 + offset) % 0x1_0000_0000) as u32;
                self.in_flight = true;
                self.rx_done = false;
                self.tx_done = false;
                Some(DmaTransfer { rx_addr, tx_addr, len: SAMPLE_BYTES as u32 })
            },
        }
    }

    /// Takes note of what the channels report.
    pub fn mark_dma_status(
        &mut self,
        rx_done: bool,
        tx_done: bool,
        error: Option<CaptureError>,
    ) -> (progress: CaptureProgress)
        requires
            old(self)@.wf(),
            error is None && old(self)@.completes(rx_done, tx_done) ==> old(self)@.samples
                < usize::MAX,
        ensures
            final(self)@.wf(),
            final(self)@ == old(self)@.marked(rx_done, tx_done, error),
            progress == old(self)@.progress(rx_done, tx_done, error),
    {
        if let Some(error) = error {
            self.fail(error);
            return CaptureProgress::Failed(error);
        }
        if !self.in_flight {
            return CaptureProgress::Idle;
        }
        self.rx_done = self.rx_done || rx_done;
        self.tx_done = self.tx_done || tx_done;
        if !(self.rx_done && self.tx_done) {
            return CaptureProgress::Partial;
        }
        proof {
            if let Some(rx) = self.rx {
                if self.continuous {
                    lemma_next_place(self.sample_index as int, rx.len as int);
                }
            }
        }
        self.offset = self.offset + SAMPLE_BYTES;
        self.sample_index = self.sample_index + 1;
        self.in_flight = false;
        self.rx_done = false;
        self.tx_done = false;
        let samples: usize = self.sample_index;
        let full = match self.rx {
            Some(rx) => self.offset >= rx.len,
            None => false,
        };
        if full {
            if self.continuous {
                self.offset = 0;
            } else {
                self.done = true;
            }
            CaptureProgress::BufferComplete { samples }
        } else {
            CaptureProgress::SampleComplete
        }
    }

    /// Takes note of the words read from the status registers of the channels.
    pub fn on_status(&mut self, rx_status: u32, tx_status: u32) -> (progress: CaptureProgress)
        requires
            old(self)@.wf(),
            error_in(rx_status, tx_status) is None && old(self)@.completes(
                decode(rx_status).block_complete,
                decode(tx_status).block_complete,
            ) ==> old(self)@.samples < usize::MAX,
        ensures
            final(self)@.wf(),
            final(self)@ == old(self)@.marked(
                decode(rx_status).block_complete,
                decode(tx_status).block_complete,
                error_in(rx_status, tx_status),
            ),
            progress == old(self)@.progress(
                decode(rx_status).block_complete,
                decode(tx_status).block_complete,
                error_in(rx_status, tx_status),
            ),
    {
        let rx = ChannelStatus::from_bits(rx_status);
        let tx = ChannelStatus::from_bits(tx_status);
        let error = if rx.has_error() {
            Some(CaptureError::RxDma(rx_status))
        } else if tx.has_error() {
            Some(CaptureError::TxDma(tx_status))
        } else {
            None
        };
        self.mark_dma_status(rx.block_complete, tx.block_complete, error)
    }

    /// Ends the capture with an error.
    pub fn fail(&mut self, error: CaptureError)
        requires
            old(self)@.wf(),
        ensures
            final(self)@.wf(),
            final(self)@ == old(self)@.failed(error),
    {
        self.error = Some(error);
        self.in_flight = false;
        self.rx_done = false;
        self.tx_done = false;
    }
}

/// In a ring of `len` bytes the place of each sample is behind that of the one
/// before it, or at the start.
pub proof fn lemma_next_place(samples: int, len: int)
    requires
        0 <= samples,
        0 < len,
        (3 * samples) % len + 3 <= len,
    ensures
        (3 * (samples + 1)) % len == if (3 * samples) % len + 3 == len {
            0
        } else {
            (3 * samples) % len + 3
        },
{
    let place = (3 * samples) % len;
    let turns = (3 * samples) / len;
    vstd::arithmetic::div_mod::lemma_fundamental_div_mod(3 * samples, len);
    if place + 3 == len {
        assert(3 * (samples + 1) == (turns + 1) * len) by (nonlinear_arith)
            requires
                3 * samples == len * turns + place,
                place + 3 == len,
        ;
        vstd::arithmetic::div_mod::lemma_fundamental_div_mod_converse(
            3 * (samples + 1),
            len,
            turns + 1,
            0,
        );
    } else {
        assert(3 * (samples + 1) == turns * len + (place + 3)) by (nonlinear_arith)
            requires
                3 * samples == len * turns + place,
        ;
        vstd::arithmetic::div_mod::lemma_fundamental_div_mod_converse(
            3 * (samples + 1),
            len,
            turns,
            place + 3,
        );
    }
}

/// The announcement of a sample led from `pre` to `post` and gave `transfer`:
/// one that fills the next place in the buffer, if a sample is wanted.
pub open spec fn begins(pre: Capture, post: Capture, transfer: Option<DmaTransfer>) -> bool {
    match transfer {
        Some(sample) => {
            &&& pre.ready()
            &&& post == pre.begun()
            &&& pre.rx matches Some(rx) && sample.rx_addr == (rx.addr + pre.offset) % 0x1_0000_0000
            &&& sample.len == 3
        },
        None => !pre.ready() && post == pre,
    }
}

/// Clears the buffer and starts a capture into it, where it lies.
pub fn start_capture(state: &mut CaptureState, rx: &'static mut [u8]) -> (started: Result<
    (),
    CaptureStartError,
>)
    requires
        old(state)@.wf(),
    ensures
        final(state)@.wf(),
        match started {
            Ok(()) => {
                &&& old(state)@.start_refusal(old(rx)@.len() as int) is None
                &&& exists|region: Region| #[trigger]
                    old(state)@.started(region) == final(state)@ && region.len == old(rx)@.len()
                        && call_ensures(slice_addr, (&*old(rx),), region.addr)
                &&& final(rx)@ == Seq::new(old(rx)@.len(), |k: int| 0u8)
            },
            Err(error) => {
                &&& old(state)@.start_refusal(old(rx)@.len() as int) == Some(error)
                &&& final(state)@ == old(state)@
                &&& final(rx)@ == old(rx)@
            },
        },
{
    let len: usize = rx.len();
    match state.start_error(len) {
        Some(error) => {
            return Err(error);
        },
        None => {},
    }
    let region = Region { addr: slice_addr(&*rx), len };
    let mut k: usize = 0;
    while k < len
        invariant
            k <= len,
            rx@.len() == len,
            forall|j: int| 0 <= j < k ==> rx@[j] == 0u8,
        decreases len - k,
    {
        rx[k] = 0u8;
        k = k + 1;
    }
    assert(rx@ =~= Seq::new(len as nat, |k: int| 0u8));
    state.arm(region)
}

} // verus!
