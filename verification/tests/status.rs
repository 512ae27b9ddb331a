use xdmac::{
    ChannelStatus, Command, DmaError, MemToMem, Region, Register, StatusReading, Transfer,
    TransferConfig, TransferStatus, Xdmac,
};

fn started(xdmac: &mut Xdmac) -> Transfer<'static, MemToMem> {
    let channel = xdmac.alloc_channel().unwrap();
    let region = Region { addr: 0x100, len: 8 };
    xdmac
        .start_memcpy(channel, region, region, TransferConfig::default())
        .ok()
        .unwrap()
}

fn reading(primary: u32) -> StatusReading {
    StatusReading { primary, secondary: None }
}

#[test]
fn each_bit_has_its_flag() {
    let none = ChannelStatus::default();
    assert_eq!(ChannelStatus::from_bits(0), none);
    assert_eq!(ChannelStatus::from_bits(0x01), ChannelStatus { block_complete: true, ..none });
    assert_eq!(
        ChannelStatus::from_bits(0x02),
        ChannelStatus { linked_list_complete: true, ..none }
    );
    assert_eq!(ChannelStatus::from_bits(0x04), ChannelStatus { disabled: true, ..none });
    assert_eq!(ChannelStatus::from_bits(0x08), ChannelStatus { flushed: true, ..none });
    assert_eq!(ChannelStatus::from_bits(0x10), ChannelStatus { read_bus_error: true, ..none });
    assert_eq!(ChannelStatus::from_bits(0x20), ChannelStatus { write_bus_error: true, ..none });
    assert_eq!(ChannelStatus::from_bits(0x40), ChannelStatus { request_overflow: true, ..none });
    assert_eq!(ChannelStatus::from_bits(0xffff_ff80), none);
    assert_eq!(
        ChannelStatus::from_bits(0x7f),
        ChannelStatus {
            block_complete: true,
            linked_list_complete: true,
            disabled: true,
            flushed: true,
            read_bus_error: true,
            write_bus_error: true,
            request_overflow: true,
        }
    );
}

#[test]
fn three_bits_are_errors() {
    for bit in 0..32 {
        let status = ChannelStatus::from_bits(1 << bit);
        assert_eq!(status.has_error(), (4..7).contains(&bit));
        assert_eq!(status.block_complete, bit == 0);
    }
}

#[test]
fn transfer_status_needs_every_channel() {
    let done = ChannelStatus::from_bits(0x01);
    let idle = ChannelStatus::default();
    let bad = ChannelStatus::from_bits(0x20);
    let one = TransferStatus { primary: done, secondary: None };
    assert!(one.is_complete());
    assert!(!one.has_error());
    assert!(!TransferStatus { primary: idle, secondary: None }.is_complete());
    assert!(!TransferStatus { primary: done, secondary: Some(idle) }.is_complete());
    assert!(!TransferStatus { primary: idle, secondary: Some(done) }.is_complete());
    assert!(TransferStatus { primary: done, secondary: Some(done) }.is_complete());
    assert!(TransferStatus { primary: bad, secondary: None }.has_error());
    assert!(TransferStatus { primary: done, secondary: Some(bad) }.has_error());
    assert!(!TransferStatus { primary: done, secondary: Some(done) }.has_error());
}

#[test]
fn status_is_what_was_read() {
    let mut xdmac = Xdmac::new();
    let mut transfer = started(&mut xdmac);
    assert_eq!(
        transfer.status(reading(0x05)),
        TransferStatus { primary: ChannelStatus::from_bits(0x05), secondary: None }
    );
    assert_eq!(
        transfer.status(reading(0)),
        TransferStatus { primary: ChannelStatus::default(), secondary: None }
    );
}

#[test]
fn completion_is_remembered() {
    let mut xdmac = Xdmac::new();
    let mut transfer = started(&mut xdmac);
    assert!(!transfer.is_complete(reading(0)));
    let _ = transfer.status(reading(0x01));
    assert!(transfer.is_complete(reading(0)));
    assert_eq!(transfer.wait(reading(0)), Some(Ok(())));
}

#[test]
fn waiting_ends_with_the_block() {
    let mut xdmac = Xdmac::new();
    let mut transfer = started(&mut xdmac);
    assert_eq!(transfer.wait(reading(0)), None);
    assert_eq!(transfer.wait(reading(0x0e)), None);
    assert_eq!(transfer.wait(reading(0x01)), Some(Ok(())));
}

#[test]
fn waiting_fails_with_what_was_read() {
    let mut xdmac = Xdmac::new();
    let mut transfer = started(&mut xdmac);
    let status = TransferStatus { primary: ChannelStatus::from_bits(0x41), secondary: None };
    assert_eq!(
        transfer.wait(reading(0x41)),
        Some(Err(DmaError::Transfer(status)))
    );
}

#[test]
fn the_reading_at_hand_decides() {
    let mut xdmac = Xdmac::new();
    let mut transfer = started(&mut xdmac);
    let late = TransferStatus { primary: ChannelStatus::from_bits(0x40), secondary: None };
    let _ = transfer.status(reading(0x10));
    assert_eq!(transfer.wait(reading(0)), None);
    assert_eq!(transfer.wait(reading(0x40)), Some(Err(DmaError::Transfer(late))));
    assert_eq!(transfer.wait(reading(0x01)), Some(Ok(())));
}

#[test]
fn a_failed_transfer_does_not_succeed_by_memory() {
    let mut xdmac = Xdmac::new();
    let mut transfer = started(&mut xdmac);
    assert!(transfer.is_complete(reading(0x11)));
    assert_eq!(transfer.wait(reading(0)), None);
    assert!(transfer.is_complete(reading(0)));
    assert_eq!(transfer.wait(reading(0x01)), Some(Ok(())));
}

#[test]
fn cancel_disables_the_channel() {
    let mut xdmac = Xdmac::new();
    let transfer = started(&mut xdmac);
    let _ = xdmac.take_commands();
    let channels = transfer.cancel(&mut xdmac);
    assert_eq!(channels.primary.index(), 0);
    assert!(channels.secondary.is_none());
    assert_eq!(xdmac.take_commands(), vec![Command::Write(Register::Gd, 1)]);
    assert_eq!(xdmac.release_channel(channels.primary), Ok(()));
}
