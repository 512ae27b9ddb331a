use xdmac::{
    ChannelRegister, Command, DataWidth, DmaError, Region, Register, TransferConfig, Xdmac,
};

fn write(register: ChannelRegister, word: u32) -> Command {
    Command::Write(Register::Channel(0, register), word)
}

#[test]
fn copy_is_programmed_step_by_step() {
    let mut xdmac = Xdmac::new();
    let _ = xdmac.take_commands();
    let channel = xdmac.alloc_channel().unwrap();
    let src = Region { addr: 0x2040_0000, len: 16 };
    let dst = Region { addr: 0x2040_0100, len: 32 };
    let transfer = xdmac
        .start_memcpy(channel, src, dst, TransferConfig { width: DataWidth::Word })
        .ok()
        .unwrap();
    assert_eq!(transfer.channel(), 0);
    assert_eq!(transfer.secondary_channel(), None);
    assert_eq!(
        xdmac.take_commands(),
        vec![
            Command::Write(Register::Gd, 0x01),
            write(ChannelRegister::Cid, 0xffff_ffff),
            Command::ReadStatus(0),
            write(ChannelRegister::Csa, 0x2040_0000),
            write(ChannelRegister::Cda, 0x2040_0100),
            write(ChannelRegister::Cnda, 0),
            write(ChannelRegister::Cndc, 0),
            write(ChannelRegister::Cubc, 4),
            write(ChannelRegister::Cc, 0x0005_1000),
            write(ChannelRegister::Cie, 0x71),
            Command::Write(Register::Ge, 0x01),
        ]
    );
}

#[test]
fn addresses_of_slices_reach_the_controller() {
    let src = [1u8, 2, 3, 4, 5];
    let mut dst = [9u8; 8];
    let from = src.as_ptr() as u32;
    let to = dst.as_ptr() as u32;
    let mut xdmac = Xdmac::new();
    let _ = xdmac.take_commands();
    let channel = xdmac.alloc_channel().unwrap();
    let started = xdmac.memcpy(channel, &src, &mut dst, TransferConfig::default());
    assert!(started.is_ok());
    let commands = xdmac.take_commands();
    assert_eq!(commands[3], write(ChannelRegister::Csa, from));
    assert_eq!(commands[4], write(ChannelRegister::Cda, to));
    assert_eq!(commands[7], write(ChannelRegister::Cubc, 5));
    assert_eq!(commands[8], write(ChannelRegister::Cc, 0x0005_0000));
    assert_eq!(dst, [9u8; 8]);
}

#[test]
fn width_goes_into_the_configuration() {
    let expected = [
        (DataWidth::Byte, 0x0005_0000),
        (DataWidth::HalfWord, 0x0005_0800),
        (DataWidth::Word, 0x0005_1000),
    ];
    for (width, cc) in expected {
        let mut xdmac = Xdmac::new();
        let _ = xdmac.take_commands();
        let channel = xdmac.alloc_channel().unwrap();
        let region = Region { addr: 0, len: 4 };
        let _ = xdmac.start_memcpy(channel, region, region, TransferConfig { width });
        assert_eq!(xdmac.take_commands()[8], write(ChannelRegister::Cc, cc));
    }
    assert_eq!(TransferConfig::default().width, DataWidth::Byte);
}

#[test]
fn copies_stay_inside_their_buffers() {
    let expected = [
        (DataWidth::Byte, 7, 7),
        (DataWidth::HalfWord, 7, 3),
        (DataWidth::Word, 7, 1),
        (DataWidth::HalfWord, 8, 4),
        (DataWidth::Word, 8, 2),
        (DataWidth::HalfWord, 1, 0),
        (DataWidth::Word, 3, 0),
        (DataWidth::Word, 0x00ff_ffff, 0x003f_ffff),
    ];
    for (width, len, items) in expected {
        let mut xdmac = Xdmac::new();
        let _ = xdmac.take_commands();
        let channel = xdmac.alloc_channel().unwrap();
        let region = Region { addr: 0, len };
        assert!(xdmac
            .start_memcpy(channel, region, region, TransferConfig { width })
            .is_ok());
        assert_eq!(xdmac.take_commands()[7], write(ChannelRegister::Cubc, items));
    }
}

#[test]
fn longest_microblock_is_accepted() {
    let mut xdmac = Xdmac::new();
    let _ = xdmac.take_commands();
    let channel = xdmac.alloc_channel().unwrap();
    let region = Region { addr: 0x7000_0000, len: 0x00ff_ffff };
    assert!(xdmac
        .start_memcpy(channel, region, region, TransferConfig::default())
        .is_ok());
    assert_eq!(
        xdmac.take_commands()[7],
        write(ChannelRegister::Cubc, 0x00ff_ffff)
    );
}

#[test]
fn too_long_a_copy_is_refused() {
    let mut xdmac = Xdmac::new();
    let _ = xdmac.take_commands();
    let channel = xdmac.alloc_channel().unwrap();
    let src = Region { addr: 0, len: 0x0100_0000 };
    // The length is looked at before the room for it.
    let dst = Region { addr: 0, len: 0 };
    assert_eq!(
        xdmac
            .start_memcpy(channel, src, dst, TransferConfig::default())
            .err(),
        Some(DmaError::LengthTooLarge)
    );
    assert_eq!(xdmac.take_commands(), vec![]);
}

#[test]
fn too_small_a_destination_is_refused() {
    let src = [0u8; 4];
    let mut dst = [7u8; 3];
    let mut xdmac = Xdmac::new();
    let _ = xdmac.take_commands();
    let channel = xdmac.alloc_channel().unwrap();
    assert_eq!(
        xdmac
            .memcpy(channel, &src, &mut dst, TransferConfig::default())
            .err(),
        Some(DmaError::BufferTooSmall)
    );
    assert_eq!(xdmac.take_commands(), vec![]);
    assert_eq!(dst, [7u8; 3]);
}

#[test]
fn empty_copy_is_started() {
    let src: [u8; 0] = [];
    let mut dst: [u8; 0] = [];
    let mut xdmac = Xdmac::new();
    let channel = xdmac.alloc_channel().unwrap();
    assert!(xdmac
        .memcpy(channel, &src, &mut dst, TransferConfig::default())
        .is_ok());
}

#[test]
fn lengths_are_validated() {
    assert_eq!(xdmac::error::validate_len(0), Ok(()));
    assert_eq!(xdmac::error::validate_len(0x00ff_ffff), Ok(()));
    assert_eq!(
        xdmac::error::validate_len(0x0100_0000),
        Err(DmaError::LengthTooLarge)
    );
}
