use xdmac::{ChannelRegister, Command, DmaError, Register, TransferConfig, Xdmac};

#[test]
fn new_manager_enables_the_clock_and_disables_all_channels() {
    let mut xdmac = Xdmac::new();
    assert_eq!(
        xdmac.take_commands(),
        vec![
            Command::EnableClock,
            Command::Write(Register::Gd, 0x00ff_ffff),
        ]
    );
    assert_eq!(xdmac.take_commands(), vec![]);
}

#[test]
fn channels_are_leased_in_order_until_all_are_out() {
    let mut xdmac = Xdmac::new();
    for index in 0..24 {
        let channel = xdmac.alloc_channel().unwrap();
        assert_eq!(channel.index(), index);
    }
    assert_eq!(xdmac.alloc_channel(), Err(DmaError::NoChannel));
    assert_eq!(xdmac.alloc_channel(), Err(DmaError::NoChannel));
}

#[test]
fn allocation_queues_nothing() {
    let mut xdmac = Xdmac::new();
    let _ = xdmac.take_commands();
    let _ = xdmac.alloc_channel();
    assert_eq!(xdmac.take_commands(), vec![]);
}

#[test]
fn released_channel_is_disabled_and_leased_again() {
    let mut xdmac = Xdmac::new();
    let mut channels = Vec::new();
    for _ in 0..24 {
        channels.push(xdmac.alloc_channel().unwrap());
    }
    let _ = xdmac.take_commands();
    let seventh = channels.remove(7);
    assert_eq!(xdmac.release_channel(seventh), Ok(()));
    assert_eq!(
        xdmac.take_commands(),
        vec![Command::Write(Register::Gd, 0x80)]
    );
    assert_eq!(xdmac.alloc_channel().unwrap().index(), 7);
    assert_eq!(xdmac.alloc_channel(), Err(DmaError::NoChannel));
}

#[test]
fn lowest_free_channel_comes_first() {
    let mut xdmac = Xdmac::new();
    let zero = xdmac.alloc_channel().unwrap();
    let one = xdmac.alloc_channel().unwrap();
    let two = xdmac.alloc_channel().unwrap();
    assert_eq!(two.index(), 2);
    assert_eq!(xdmac.release_channel(one), Ok(()));
    assert_eq!(xdmac.release_channel(zero), Ok(()));
    assert_eq!(xdmac.alloc_channel().unwrap().index(), 0);
    assert_eq!(xdmac.alloc_channel().unwrap().index(), 1);
    assert_eq!(xdmac.alloc_channel().unwrap().index(), 3);
}

#[test]
fn channel_of_another_manager_is_refused() {
    let mut one = Xdmac::new();
    let mut other = Xdmac::new();
    let channel = one.alloc_channel().unwrap();
    let _ = other.take_commands();
    assert_eq!(
        other.release_channel(channel),
        Err(DmaError::UnallocatedChannel)
    );
    assert_eq!(other.take_commands(), vec![]);
}

#[test]
fn lease_survives_a_transfer_and_ends_with_its_release() {
    let src = [1u8, 2, 3];
    let mut dst = [0u8; 3];
    let mut xdmac = Xdmac::new();
    let channel = xdmac.alloc_channel().unwrap();
    let transfer = xdmac
        .memcpy(channel, &src, &mut dst, TransferConfig::default())
        .ok()
        .unwrap();
    assert_eq!(xdmac.alloc_channel().unwrap().index(), 1);
    let channels = transfer.free();
    assert_eq!(channels.primary.index(), 0);
    assert!(channels.secondary.is_none());
    assert_eq!(xdmac.release_channel(channels.primary), Ok(()));
    assert_eq!(xdmac.alloc_channel().unwrap().index(), 0);
}

#[test]
fn refused_start_keeps_the_channel_leased() {
    let src = [1u8, 2, 3];
    let mut dst = [0u8; 2];
    let mut xdmac = Xdmac::new();
    let channel = xdmac.alloc_channel().unwrap();
    assert_eq!(
        xdmac
            .memcpy(channel, &src, &mut dst, TransferConfig::default())
            .err(),
        Some(DmaError::BufferTooSmall)
    );
    assert_eq!(xdmac.alloc_channel().unwrap().index(), 1);
}

#[test]
fn a_channel_is_set_up_alone() {
    let src = [0u8; 4];
    let mut dst = [0u8; 4];
    let mut xdmac = Xdmac::new();
    let _ = xdmac.alloc_channel();
    let channel = xdmac.alloc_channel().unwrap();
    let _ = xdmac.take_commands();
    let _ = xdmac.memcpy(channel, &src, &mut dst, TransferConfig::default());
    for command in xdmac.take_commands() {
        match command {
            Command::EnableClock => panic!("the clock is on already"),
            Command::ReadStatus(index) => assert_eq!(index, 1),
            Command::Write(Register::Channel(index, register), word) => {
                assert_eq!(index, 1);
                if register == ChannelRegister::Cie {
                    assert_eq!(word, 0x71);
                }
            }
            Command::Write(_, word) => assert_eq!(word, 0x02),
        }
    }
}
