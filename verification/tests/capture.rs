use xdmac::capture::{
    announces_sample, start_capture, CaptureAction, CaptureError, CaptureProgress, CaptureStartError,
    CaptureState, DmaTransfer,
};
use xdmac::Region;

fn armed(continuous: bool, samples: usize) -> CaptureState {
    let mut state = CaptureState::new(continuous);
    let rx = Region { addr: 0x2040_0000, len: 3 * samples };
    assert_eq!(state.arm(rx), Ok(()));
    state
}

#[test]
fn nothing_happens_before_the_start() {
    let mut state = CaptureState::new(true);
    assert_eq!(state.begin_sample(), None);
    assert_eq!(state.on_status(1, 1), CaptureProgress::Idle);
}

#[test]
fn samples_go_round_the_buffer() {
    let mut state = armed(true, 2);
    for round in 0..3 {
        assert_eq!(
            state.begin_sample_from(0x1000),
            Some(DmaTransfer { rx_addr: 0x2040_0000, tx_addr: 0x1000, len: 3 })
        );
        assert_eq!(state.on_status(1, 1), CaptureProgress::SampleComplete);
        assert_eq!(
            state.begin_sample_from(0x1000),
            Some(DmaTransfer { rx_addr: 0x2040_0003, tx_addr: 0x1000, len: 3 })
        );
        let samples = 2 * round + 2;
        assert_eq!(state.on_status(1, 1), CaptureProgress::BufferComplete { samples });
        assert_eq!(state.samples(), samples);
    }
}

#[test]
fn single_capture_ends_with_the_buffer() {
    let mut state = armed(false, 1);
    assert!(state.begin_sample().is_some());
    assert_eq!(state.on_status(1, 1), CaptureProgress::BufferComplete { samples: 1 });
    assert_eq!(state.begin_sample(), None);
    assert_eq!(state.arm(Region { addr: 0, len: 3 }), Ok(()));
    assert!(state.begin_sample().is_some());
}

#[test]
fn one_transfer_at_a_time() {
    let mut state = armed(true, 2);
    assert!(state.begin_sample().is_some());
    assert_eq!(state.begin_sample(), None);
    assert_eq!(state.on_status(0, 1), CaptureProgress::Partial);
    assert_eq!(state.begin_sample(), None);
    assert_eq!(state.on_status(0, 0), CaptureProgress::Partial);
    assert_eq!(state.on_status(1, 0), CaptureProgress::SampleComplete);
    assert_eq!(state.on_status(1, 1), CaptureProgress::Idle);
    assert!(state.begin_sample().is_some());
}

#[test]
fn errors_stop_the_capture() {
    let mut state = armed(true, 2);
    assert!(state.begin_sample().is_some());
    assert_eq!(
        state.on_status(0x11, 0x20),
        CaptureProgress::Failed(CaptureError::RxDma(0x11))
    );
    assert_eq!(state.begin_sample(), None);
    assert_eq!(state.arm(Region { addr: 0, len: 6 }), Ok(()));
    assert!(state.begin_sample().is_some());
    assert_eq!(
        state.on_status(0x01, 0x40),
        CaptureProgress::Failed(CaptureError::TxDma(0x40))
    );
    state.fail(CaptureError::RxDma(0));
    assert_eq!(state.begin_sample(), None);
}

#[test]
fn marking_a_status() {
    let mut state = armed(true, 1);
    assert!(state.begin_sample().is_some());
    assert_eq!(state.mark_dma_status(true, false, None), CaptureProgress::Partial);
    assert_eq!(
        state.mark_dma_status(false, true, None),
        CaptureProgress::BufferComplete { samples: 1 }
    );
}

#[test]
fn refused_starts() {
    let mut state = CaptureState::new(true);
    assert_eq!(
        state.arm(Region { addr: 0, len: 0 }),
        Err(CaptureStartError::EmptyBuffer)
    );
    assert_eq!(
        state.arm(Region { addr: 0, len: 4 }),
        Err(CaptureStartError::MisalignedBuffer)
    );
    assert_eq!(state.arm(Region { addr: 0, len: 6 }), Ok(()));
    assert_eq!(
        state.arm(Region { addr: 0, len: 0 }),
        Err(CaptureStartError::Busy)
    );
}

#[test]
fn buffer_is_cleared_and_used_where_it_lies() {
    let buffer: &'static mut [u8] = Box::leak(vec![7u8; 6].into_boxed_slice());
    let addr = buffer.as_ptr();
    let mut state = CaptureState::new(true);
    assert_eq!(start_capture(&mut state, buffer), Ok(()));
    assert_eq!(state.begin_sample().unwrap().rx_addr, addr as u32);
    let other: &'static mut [u8] = Box::leak(vec![7u8; 6].into_boxed_slice());
    assert_eq!(start_capture(&mut state, other), Err(CaptureStartError::Busy));
    let mut fresh = CaptureState::new(false);
    let odd: &'static mut [u8] = Box::leak(vec![7u8; 5].into_boxed_slice());
    assert_eq!(
        start_capture(&mut fresh, odd),
        Err(CaptureStartError::MisalignedBuffer)
    );
    let none: &'static mut [u8] = Box::leak(Vec::new().into_boxed_slice());
    assert_eq!(start_capture(&mut fresh, none), Err(CaptureStartError::EmptyBuffer));
}

#[test]
fn addresses_wrap_at_the_end_of_the_word() {
    let mut state = CaptureState::new(true);
    assert_eq!(state.arm(Region { addr: 0xffff_fffe, len: 6 }), Ok(()));
    assert!(state.begin_sample().is_some());
    assert_eq!(state.on_status(1, 1), CaptureProgress::SampleComplete);
    assert_eq!(state.begin_sample().unwrap().rx_addr, 1);
}

#[test]
fn what_to_do_about_progress() {
    let full = CaptureProgress::BufferComplete { samples: 4 };
    let failed = CaptureProgress::Failed(CaptureError::TxDma(0x10));
    assert_eq!(full.action(true), CaptureAction::GoOn);
    assert_eq!(full.action(false), CaptureAction::Stop { after_last_byte: true });
    assert_eq!(failed.action(true), CaptureAction::Stop { after_last_byte: false });
    assert_eq!(failed.action(false), CaptureAction::Stop { after_last_byte: false });
    assert_eq!(CaptureProgress::Idle.action(false), CaptureAction::GoOn);
    assert_eq!(CaptureProgress::Partial.action(false), CaptureAction::GoOn);
    assert_eq!(CaptureProgress::SampleComplete.action(false), CaptureAction::GoOn);
}

#[test]
fn only_the_pin_of_the_converter_announces() {
    assert!(announces_sample(0x20));
    assert!(announces_sample(0xffff_ffff));
    assert!(!announces_sample(0xffff_ffdf));
    assert!(!announces_sample(0));
}

#[test]
fn capture_knows_whether_it_is_continuous() {
    assert!(CaptureState::new(true).is_continuous());
    assert!(!CaptureState::new(false).is_continuous());
}
