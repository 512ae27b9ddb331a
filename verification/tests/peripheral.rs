use xdmac::spi::{Spi, Spi0, Spi1};
use xdmac::uart::{Rx, Tx, Uart};
use xdmac::usart::{Usart0, Usart1, Usart2, UsartMode};
use xdmac::{
    ChannelRegister, ChannelStatus, Command, DataWidth, DmaError, Region, Register, SpiDma,
    StatusReading, TransferConfig, TransferStatus, UsartDma, Xdmac,
};

fn write(index: u8, register: ChannelRegister, word: u32) -> Command {
    Command::Write(Register::Channel(index, register), word)
}

fn fresh() -> Xdmac {
    let mut xdmac = Xdmac::new();
    let _ = xdmac.take_commands();
    xdmac
}

#[test]
fn request_lines_of_the_peripherals() {
    assert_eq!((<Spi0 as SpiDma>::TX_PERID, <Spi0 as SpiDma>::RX_PERID), (1, 2));
    assert_eq!((<Spi1 as SpiDma>::TX_PERID, <Spi1 as SpiDma>::RX_PERID), (3, 4));
    assert_eq!((<Usart0 as UsartDma>::TX_PERID, <Usart0 as UsartDma>::RX_PERID), (7, 8));
    assert_eq!((<Usart1 as UsartDma>::TX_PERID, <Usart1 as UsartDma>::RX_PERID), (9, 10));
    assert_eq!((<Usart2 as UsartDma>::TX_PERID, <Usart2 as UsartDma>::RX_PERID), (11, 12));
}

#[test]
fn spi_transmit() {
    let mut spi: Spi<Spi0> = Spi::new(0x4000_800c, 0x4000_8008);
    let bytes = [1u8, 2, 3];
    let from = bytes.as_ptr() as u32;
    let mut xdmac = fresh();
    let channel = xdmac.alloc_channel().unwrap();
    let started = xdmac.spi_tx(channel, &mut spi, &bytes, TransferConfig::default());
    assert_eq!(started.ok().unwrap().channel(), 0);
    let commands = xdmac.take_commands();
    assert_eq!(commands.len(), 11);
    assert_eq!(commands[3], write(0, ChannelRegister::Csa, from));
    assert_eq!(commands[4], write(0, ChannelRegister::Cda, 0x4000_800c));
    assert_eq!(commands[7], write(0, ChannelRegister::Cubc, 3));
    assert_eq!(commands[8], write(0, ChannelRegister::Cc, 0x0101_0001));
    assert_eq!(commands[10], Command::Write(Register::Ge, 1));
}

#[test]
fn spi_receive() {
    let mut spi: Spi<Spi1> = Spi::new(0x4005_800c, 0x4005_8008);
    let mut bytes = [0u8; 6];
    let to = bytes.as_ptr() as u32;
    let mut xdmac = fresh();
    let channel = xdmac.alloc_channel().unwrap();
    let started = xdmac.spi_rx(channel, &mut spi, &mut bytes, TransferConfig::default());
    assert!(started.is_ok());
    let commands = xdmac.take_commands();
    assert_eq!(commands[3], write(0, ChannelRegister::Csa, 0x4005_8008));
    assert_eq!(commands[4], write(0, ChannelRegister::Cda, to));
    assert_eq!(commands[7], write(0, ChannelRegister::Cubc, 6));
    assert_eq!(commands[8], write(0, ChannelRegister::Cc, 0x0404_0011));
}

#[test]
fn full_duplex_sets_both_up_before_it_starts_any() {
    let mut spi: Spi<Spi0> = Spi::new(0x4000_800c, 0x4000_8008);
    let tx = [0u8; 3];
    let mut rx = [0u8; 3];
    let from = tx.as_ptr() as u32;
    let to = rx.as_ptr() as u32;
    let mut xdmac = fresh();
    let tx_channel = xdmac.alloc_channel().unwrap();
    let rx_channel = xdmac.alloc_channel().unwrap();
    let transfer = xdmac
        .spi_transfer(tx_channel, rx_channel, &mut spi, &tx, &mut rx, TransferConfig::default())
        .ok()
        .unwrap();
    assert_eq!(transfer.channel(), 0);
    assert_eq!(transfer.secondary_channel(), Some(1));
    assert_eq!(
        xdmac.take_commands(),
        vec![
            Command::Write(Register::Gd, 0x02),
            write(1, ChannelRegister::Cid, 0xffff_ffff),
            Command::ReadStatus(1),
            write(1, ChannelRegister::Csa, 0x4000_8008),
            write(1, ChannelRegister::Cda, to),
            write(1, ChannelRegister::Cnda, 0),
            write(1, ChannelRegister::Cndc, 0),
            write(1, ChannelRegister::Cubc, 3),
            write(1, ChannelRegister::Cc, 0x0204_0011),
            write(1, ChannelRegister::Cie, 0x71),
            Command::Write(Register::Gd, 0x01),
            write(0, ChannelRegister::Cid, 0xffff_ffff),
            Command::ReadStatus(0),
            write(0, ChannelRegister::Csa, from),
            write(0, ChannelRegister::Cda, 0x4000_800c),
            write(0, ChannelRegister::Cnda, 0),
            write(0, ChannelRegister::Cndc, 0),
            write(0, ChannelRegister::Cubc, 3),
            write(0, ChannelRegister::Cc, 0x0101_0001),
            write(0, ChannelRegister::Cie, 0x71),
            Command::Write(Register::Ge, 0x02),
            Command::Write(Register::Ge, 0x01),
        ]
    );
}

#[test]
fn full_duplex_buffers_must_match() {
    let mut spi: Spi<Spi0> = Spi::new(0, 0);
    let tx = [0u8; 3];
    let mut rx = [0u8; 4];
    let mut xdmac = fresh();
    let tx_channel = xdmac.alloc_channel().unwrap();
    let rx_channel = xdmac.alloc_channel().unwrap();
    assert_eq!(
        xdmac
            .spi_transfer(tx_channel, rx_channel, &mut spi, &tx, &mut rx, TransferConfig::default())
            .err(),
        Some(DmaError::LengthMismatch)
    );
    assert_eq!(xdmac.take_commands(), vec![]);
}

#[test]
fn full_duplex_looks_at_the_match_before_the_length() {
    let mut xdmac = fresh();
    let long = Region { addr: 0, len: 0x0100_0000 };
    let longer = Region { addr: 0, len: 0x0100_0001 };
    let tx = xdmac.alloc_channel().unwrap();
    let rx = xdmac.alloc_channel().unwrap();
    let config = TransferConfig::default();
    assert_eq!(
        xdmac.start_full_duplex(tx, rx, long, longer, 0, 0, 1, 2, config).err(),
        Some(DmaError::LengthMismatch)
    );
    let tx = xdmac.alloc_channel().unwrap();
    let rx = xdmac.alloc_channel().unwrap();
    assert_eq!(
        xdmac.start_full_duplex(tx, rx, long, long, 0, 0, 1, 2, config).err(),
        Some(DmaError::LengthTooLarge)
    );
}

#[test]
fn full_duplex_cancel_disables_both() {
    let mut xdmac = fresh();
    let region = Region { addr: 0x100, len: 3 };
    let tx = xdmac.alloc_channel().unwrap();
    let rx = xdmac.alloc_channel().unwrap();
    let transfer = xdmac
        .start_full_duplex(tx, rx, region, region, 0, 0, 1, 2, TransferConfig::default())
        .ok()
        .unwrap();
    let _ = xdmac.take_commands();
    let channels = transfer.cancel(&mut xdmac);
    assert_eq!(channels.primary.index(), 0);
    assert_eq!(channels.secondary.as_ref().map(|channel| channel.index()), Some(1));
    assert_eq!(
        xdmac.take_commands(),
        vec![Command::Write(Register::Gd, 1), Command::Write(Register::Gd, 2)]
    );
}

#[test]
fn full_duplex_ends_although_its_channels_end_apart() {
    let mut xdmac = fresh();
    let region = Region { addr: 0x100, len: 3 };
    let tx = xdmac.alloc_channel().unwrap();
    let rx = xdmac.alloc_channel().unwrap();
    let mut transfer = xdmac
        .start_full_duplex(tx, rx, region, region, 0, 0, 1, 2, TransferConfig::default())
        .ok()
        .unwrap();
    assert_eq!(transfer.wait(StatusReading { primary: 0, secondary: Some(0) }), None);
    assert_eq!(transfer.wait(StatusReading { primary: 1, secondary: Some(0) }), None);
    assert_eq!(transfer.wait(StatusReading { primary: 0, secondary: Some(0) }), None);
    assert_eq!(transfer.wait(StatusReading { primary: 0, secondary: Some(1) }), Some(Ok(())));
    assert!(transfer.is_complete(StatusReading { primary: 0, secondary: Some(0) }));
}

#[test]
fn usart_halves() {
    let mut tx: Tx<Usart1> = Tx::new(UsartMode::Uart, 0x4002_801c);
    let mut rx: Rx<Usart1> = Rx::new(UsartMode::Uart, 0x4002_8018);
    let sent = [0u8; 2];
    let mut received = [0u8; 2];
    let mut xdmac = fresh();
    let channel = xdmac.alloc_channel().unwrap();
    assert!(xdmac.usart_tx(channel, &mut tx, &sent, TransferConfig::default()).is_ok());
    let commands = xdmac.take_commands();
    assert_eq!(commands[3], write(0, ChannelRegister::Csa, sent.as_ptr() as u32));
    assert_eq!(commands[4], write(0, ChannelRegister::Cda, 0x4002_801c));
    assert_eq!(commands[8], write(0, ChannelRegister::Cc, 0x0901_0001));
    let to = received.as_ptr() as u32;
    let channel = xdmac.alloc_channel().unwrap();
    assert!(xdmac.usart_rx(channel, &mut rx, &mut received, TransferConfig::default()).is_ok());
    let commands = xdmac.take_commands();
    assert_eq!(commands[3], write(1, ChannelRegister::Csa, 0x4002_8018));
    assert_eq!(commands[4], write(1, ChannelRegister::Cda, to));
    assert_eq!(commands[8], write(1, ChannelRegister::Cc, 0x0a04_0011));
}

#[test]
fn usart_whole() {
    let mut uart: Uart<Usart2> = Uart::new(UsartMode::Uart, 0x4002_c01c, 0x4002_c018);
    let sent = [0u8; 2];
    let mut received = [0u8; 2];
    let mut xdmac = fresh();
    let channel = xdmac.alloc_channel().unwrap();
    assert!(xdmac.usart_uart_tx(channel, &mut uart, &sent, TransferConfig::default()).is_ok());
    let commands = xdmac.take_commands();
    assert_eq!(commands[4], write(0, ChannelRegister::Cda, 0x4002_c01c));
    assert_eq!(commands[8], write(0, ChannelRegister::Cc, 0x0b01_0001));
    let channel = xdmac.alloc_channel().unwrap();
    assert!(xdmac
        .usart_uart_rx(channel, &mut uart, &mut received, TransferConfig::default())
        .is_ok());
    let commands = xdmac.take_commands();
    assert_eq!(commands[3], write(1, ChannelRegister::Csa, 0x4002_c018));
    assert_eq!(commands[8], write(1, ChannelRegister::Cc, 0x0c04_0011));
}

#[test]
fn usart_must_be_in_uart_mode() {
    let mut tx: Tx<Usart0> = Tx::new(UsartMode::Other, 0);
    let mut rx: Rx<Usart0> = Rx::new(UsartMode::Other, 0);
    let mut uart: Uart<Usart0> = Uart::new(UsartMode::Other, 0, 0);
    let sent = [0u8; 2];
    let mut received = [0u8; 2];
    let config = TransferConfig::default();
    let mut xdmac = fresh();
    let channel = xdmac.alloc_channel().unwrap();
    assert_eq!(
        xdmac.usart_tx(channel, &mut tx, &sent, config).err(),
        Some(DmaError::InvalidMode)
    );
    let channel = xdmac.alloc_channel().unwrap();
    assert_eq!(
        xdmac.usart_rx(channel, &mut rx, &mut received, config).err(),
        Some(DmaError::InvalidMode)
    );
    let channel = xdmac.alloc_channel().unwrap();
    assert_eq!(
        xdmac.usart_uart_tx(channel, &mut uart, &sent, config).err(),
        Some(DmaError::InvalidMode)
    );
    let channel = xdmac.alloc_channel().unwrap();
    assert_eq!(
        xdmac.usart_uart_rx(channel, &mut uart, &mut received, config).err(),
        Some(DmaError::InvalidMode)
    );
    assert_eq!(xdmac.take_commands(), vec![]);
}

#[test]
fn too_long_a_peripheral_transfer_is_refused() {
    let mut xdmac = fresh();
    let long = Region { addr: 0, len: 0x0100_0000 };
    let config = TransferConfig::default();
    let channel = xdmac.alloc_channel().unwrap();
    assert_eq!(
        xdmac.start_tx(channel, long, 0, 1, config).err(),
        Some(DmaError::LengthTooLarge)
    );
    let channel = xdmac.alloc_channel().unwrap();
    assert_eq!(
        xdmac.start_rx(channel, long, 0, 1, config).err(),
        Some(DmaError::LengthTooLarge)
    );
    assert_eq!(xdmac.take_commands(), vec![]);
}

#[test]
fn wide_items_are_counted_not_their_bytes() {
    let mut xdmac = fresh();
    let bytes = Region { addr: 0x100, len: 11 };
    let config = TransferConfig { width: DataWidth::Word };
    let channel = xdmac.alloc_channel().unwrap();
    assert!(xdmac.start_tx(channel, bytes, 0, 1, config).is_ok());
    assert_eq!(xdmac.take_commands()[7], write(0, ChannelRegister::Cubc, 2));
    let config = TransferConfig { width: DataWidth::HalfWord };
    let channel = xdmac.alloc_channel().unwrap();
    assert!(xdmac.start_rx(channel, bytes, 0, 2, config).is_ok());
    assert_eq!(xdmac.take_commands()[7], write(1, ChannelRegister::Cubc, 5));
    let tx = xdmac.alloc_channel().unwrap();
    let rx = xdmac.alloc_channel().unwrap();
    assert!(xdmac.start_full_duplex(tx, rx, bytes, bytes, 0, 0, 1, 2, config).is_ok());
    let commands = xdmac.take_commands();
    assert_eq!(commands[7], write(3, ChannelRegister::Cubc, 5));
    assert_eq!(commands[17], write(2, ChannelRegister::Cubc, 5));
}

#[test]
fn error_of_the_last_reading_comes_out() {
    let mut xdmac = fresh();
    let region = Region { addr: 0x100, len: 3 };
    let tx = xdmac.alloc_channel().unwrap();
    let rx = xdmac.alloc_channel().unwrap();
    let mut transfer = xdmac
        .start_full_duplex(tx, rx, region, region, 0, 0, 1, 2, TransferConfig::default())
        .ok()
        .unwrap();
    let _ = transfer.status(StatusReading { primary: 0x10, secondary: Some(0) });
    let status = TransferStatus {
        primary: ChannelStatus::from_bits(0),
        secondary: Some(ChannelStatus::from_bits(0x40)),
    };
    assert_eq!(
        transfer.wait(StatusReading { primary: 0, secondary: Some(0x40) }),
        Some(Err(DmaError::Transfer(status)))
    );
    assert_eq!(
        transfer.wait(StatusReading { primary: 1, secondary: Some(1) }),
        Some(Ok(()))
    );
}

#[test]
fn mode_words() {
    assert_eq!(UsartMode::from_mode_word(0), UsartMode::Uart);
    assert_eq!(UsartMode::from_mode_word(0x0000_08c0), UsartMode::Uart);
    assert_eq!(UsartMode::from_mode_word(0x0000_08ce), UsartMode::Other);
    assert_eq!(UsartMode::from_mode_word(0x01), UsartMode::Other);
}
