//! Transfers between memory and a peripheral.
//!
//! A transfer moves as many whole items of the configured width as its buffer
//! has bytes for; bytes at the end that do not fill an item are left out.

use crate::buffer::{slice_addr, Region};
use crate::channel::Channel;
use crate::config::TransferConfig;
use crate::controller::{starts, Xdmac, XdmacState};
use crate::error::{validate_len, DmaError, UBLEN_MAX};
use crate::registers::{
    cc_rx, cc_rx_word, cc_tx, cc_tx_word, configure_commands, enable_commands, start_commands,
    Command,
};
use crate::request::{SpiDma, UsartDma};
use crate::spi::Spi;
use crate::transfer::{FullDuplex, PeripheralRx, PeripheralTx, Transfer, TransferState};
use crate::uart;
use crate::usart::UsartMode;
use vstd::prelude::*;

verus! {

/// Why a transfer of `len` bytes is refused.
pub open spec fn length_refusal(len: nat) -> Option<DmaError> {
    if len > UBLEN_MAX {
        Some(DmaError::LengthTooLarge)
    } else {
        None
    }
}

/// Why a full-duplex transfer of buffers of the given lengths is refused.
pub open spec fn full_duplex_refusal(tx_len: nat, rx_len: nat) -> Option<DmaError> {
    if tx_len != rx_len {
        Some(DmaError::LengthMismatch)
    } else {
        length_refusal(tx_len)
    }
}

/// Sends `bytes` to the data register at `register`, on the request line `perid`.
pub open spec fn tx_commands(
    channel: u8,
    bytes: Region,
    register: u32,
    perid: u8,
    config: TransferConfig,
) -> Seq<Command> {
    start_commands(
        channel,
        bytes.addr,
        register,
        config.width.items(bytes.len as nat) as u32,
        cc_tx_word(config.width, perid),
    )
}

/// Fills `bytes` from the data register at `register`, on the request line `perid`.
pub open spec fn rx_commands(
    channel: u8,
    bytes: Region,
    register: u32,
    perid: u8,
    config: TransferConfig,
) -> Seq<Command> {
    start_commands(
        channel,
        register,
        bytes.addr,
        config.width.items(bytes.len as nat) as u32,
        cc_rx_word(config.width, perid),
    )
}

/// Both directions at once. The receiving channel is set up and started
/// before the transmitting one, so that no answer is missed.
pub open spec fn full_duplex_commands(
    tx_channel: u8,
    rx_channel: u8,
    tx: Region,
    rx: Region,
    tdr: u32,
    rdr: u32,
    tx_perid: u8,
    rx_perid: u8,
    config: TransferConfig,
) -> Seq<Command> {
    configure_commands(
        rx_channel,
        rdr,
        rx.addr,
        config.width.items(rx.len as nat) as u32,
        cc_rx_word(config.width, rx_perid),
    ) + configure_commands(
        tx_channel,
        tx.addr,
        tdr,
        config.width.items(tx.len as nat) as u32,
        cc_tx_word(config.width, tx_perid),
    ) + enable_commands(rx_channel) + enable_commands(
        tx_channel,
    )
}

/// A request to send `bytes` led from `pre` to `post` and gave `started`.
pub open spec fn tx_starts<'a>(
    pre: XdmacState,
    post: XdmacState,
    channel: u8,
    bytes: Region,
    register: u32,
    perid: u8,
    config: TransferConfig,
    started: Result<Transfer<'a, PeripheralTx>, DmaError>,
) -> bool {
    starts(
        pre,
        post,
        length_refusal(bytes.len as nat),
        TransferState::on_one(channel),
        tx_commands(channel, bytes, register, perid, config),
        started,
    )
}

/// A request to fill `bytes` led from `pre` to `post` and gave `started`.
pub open spec fn rx_starts<'a>(
    pre: XdmacState,
    post: XdmacState,
    channel: u8,
    bytes: Region,
    register: u32,
    perid: u8,
    config: TransferConfig,
    started: Result<Transfer<'a, PeripheralRx>, DmaError>,
) -> bool {
    starts(
        pre,
        post,
        length_refusal(bytes.len as nat),
        TransferState::on_one(channel),
        rx_commands(channel, bytes, register, perid, config),
        started,
    )
}

/// A request to send `tx` and fill `rx` led from `pre` to `post` and gave
/// `started`. The transmitting channel is the primary one.
pub open spec fn full_duplex_starts<'a>(
    pre: XdmacState,
    post: XdmacState,
    tx_channel: u8,
    rx_channel: u8,
    tx: Region,
    rx: Region,
    tdr: u32,
    rdr: u32,
    tx_perid: u8,
    rx_perid: u8,
    config: TransferConfig,
    started: Result<Transfer<'a, FullDuplex>, DmaError>,
) -> bool {
    starts(
        pre,
        post,
        full_duplex_refusal(tx.len as nat, rx.len as nat),
        TransferState::on_two(tx_channel, rx_channel),
        full_duplex_commands(
            tx_channel,
            rx_channel,
            tx,
            rx,
            tdr,
            rdr,
            tx_perid,
            rx_perid,
            config,
        ),
        started,
    )
}

impl Xdmac {
    /// Starts sending the bytes at a known address to the data register at
    /// `register`, paced by the request line `perid`.
    ///
    /// The transfer borrows nothing. The caller keeps the memory alive, and
    /// free for the controller to use, until the transfer has ended.
    pub fn start_tx<'a>(
        &mut self,
        channel: Channel,
        bytes: Region,
        register: u32,
        perid: u8,
        config: TransferConfig,
    ) -> (started: Result<Transfer<'a, PeripheralTx>, DmaError>)
        ensures
            tx_starts(
                old(self)@,
                final(self)@,
                channel@,
                bytes,
                register,
                perid,
                config,
                started,
            ),
    {
        match validate_len(bytes.len) {
            Ok(()) => {},
            Err(error) => {
                return Err(error);
            },
        }
        self.configure(
            &channel,
            bytes.addr,
            register,
            config.width.count(bytes.len),
            cc_tx(config.width, perid),
        );
        self.enable(&channel);
        assert(self@ =~= old(self)@.issue(
            tx_commands(channel@, bytes, register, perid, config),
        ));
        Ok(Transfer::new(channel))
    }

    /// Starts filling the bytes at a known address from the data register at
    /// `register`, paced by the request line `perid`.
    ///
    /// The transfer borrows nothing. The caller keeps the memory alive, and
    /// free for the controller to use, until the transfer has ended.
    pub fn start_rx<'a>(
        &mut self,
        channel: Channel,
        bytes: Region,
        register: u32,
        perid: u8,
        config: TransferConfig,
    ) -> (started: Result<Transfer<'a, PeripheralRx>, DmaError>)
        ensures
            rx_starts(
                old(self)@,
                final(self)@,
                channel@,
                bytes,
                register,
                perid,
                config,
                started,
            ),
    {
        match validate_len(bytes.len) {
            Ok(()) => {},
            Err(error) => {
                return Err(error);
            },
        }
        self.configure(
            &channel,
            register,
            bytes.addr,
            config.width.count(bytes.len),
            cc_rx(config.width, perid),
        );
        self.enable(&channel);
        assert(self@ =~= old(self)@.issue(
            rx_commands(channel@, bytes, register, perid, config),
        ));
        Ok(Transfer::new(channel))
    }

    /// Starts sending and filling bytes at known addresses at once, to and
    /// from the data registers at `tdr` and `rdr`.
    ///
    /// The transfer borrows nothing. The caller keeps the memory alive, and
    /// free for the controller to use, until the transfer has ended.
    pub fn start_full_duplex<'a>(
        &mut self,
        tx_channel: Channel,
        rx_channel: Channel,
        tx: Region,
        rx: Region,
        tdr: u32,
        rdr: u32,
        tx_perid: u8,
        rx_perid: u8,
        config: TransferConfig,
    ) -> (started: Result<Transfer<'a, FullDuplex>, DmaError>)
        ensures
            full_duplex_starts(
                old(self)@,
                final(self)@,
                tx_channel@,
                rx_channel@,
                tx,
                rx,
                tdr,
                rdr,
                tx_perid,
                rx_perid,
                config,
                started,
            ),
    {
        if tx.len != rx.len {
            return Err(DmaError::LengthMismatch);
        }
        match validate_len(tx.len) {
            Ok(()) => {},
            Err(error) => {
                return Err(error);
            },
        }
        self.configure(
            &rx_channel,
            rdr,
            rx.addr,
            config.width.count(rx.len),
            cc_rx(config.width, rx_perid),
        );
        self.configure(
            &tx_channel,
            tx.addr,
            tdr,
            config.width.count(tx.len),
            cc_tx(config.width, tx_perid),
        );
        self.enable(&rx_channel);
        self.enable(&tx_channel);
        assert(self@ =~= old(self)@.issue(
            full_duplex_commands(
                tx_channel@,
                rx_channel@,
                tx,
                rx,
                tdr,
                rdr,
                tx_perid,
                rx_perid,
                config,
            ),
        ));
        Ok(Transfer::new_two(tx_channel, rx_channel))
    }

    /// Starts an SPI memory-to-peripheral transmit transfer.
    pub fn spi_tx<'a, M: SpiDma>(
        &mut self,
        channel: Channel,
        spi: &'a mut Spi<M>,
        bytes: &'a [u8],
        config: TransferConfig,
    ) -> (started: Result<Transfer<'a, PeripheralTx>, DmaError>)
        ensures
            exists|region: Region| #[trigger]
                tx_starts(
                    old(self)@,
                    final(self)@,
                    channel@,
                    region,
                    old(spi).tdr(),
                    M::TX_PERID,
                    config,
                    started,
                ) && region.len == bytes@.len() && call_ensures(slice_addr, (bytes,), region.addr),
            *final(spi) == *old(spi),
    {
        let region = Region { addr: slice_addr(bytes), len: bytes.len() };
        self.start_tx(channel, region, spi.dma_tdr_addr(), M::TX_PERID, config)
    }

    /// Starts an SPI peripheral-to-memory receive transfer.
    ///
    /// The controller writes to `bytes` while the transfer runs, so nothing is
    /// said of what they hold once it has been started.
    pub fn spi_rx<'a, M: SpiDma>(
        &mut self,
        channel: Channel,
        spi: &'a mut Spi<M>,
        bytes: &'a mut [u8],
        config: TransferConfig,
    ) -> (started: Result<Transfer<'a, PeripheralRx>, DmaError>)
        ensures
            exists|region: Region| #[trigger]
                rx_starts(
                    old(self)@,
                    final(self)@,
                    channel@,
                    region,
                    old(spi).rdr(),
                    M::RX_PERID,
                    config,
                    started,
                ) && region.len == old(bytes)@.len() && call_ensures(
                    slice_addr,
                    (&*old(bytes),),
                    region.addr,
                ),
            *final(spi) == *old(spi),
            final(bytes)@.len() == old(bytes)@.len(),
            started is Err ==> final(bytes)@ == old(bytes)@,
    {
        let region = Region { addr: slice_addr(&*bytes), len: bytes.len() };
        self.start_rx(channel, region, spi.dma_rdr_addr(), M::RX_PERID, config)
    }

    /// Starts a full-duplex SPI transfer using separate TX and RX channels.
    ///
    /// The controller writes to `rx` while the transfer runs, so nothing is
    /// said of what it holds once the transfer has been started.
    pub fn spi_transfer<'a, M: SpiDma>(
        &mut self,
        tx_channel: Channel,
        rx_channel: Channel,
        spi: &'a mut Spi<M>,
        tx: &'a [u8],
        rx: &'a mut [u8],
        config: TransferConfig,
    ) -> (started: Result<Transfer<'a, FullDuplex>, DmaError>)
        ensures
            exists|from: Region, to: Region| #[trigger]
                full_duplex_starts(
                    old(self)@,
                    final(self)@,
                    tx_channel@,
                    rx_channel@,
                    from,
                    to,
                    old(spi).tdr(),
                    old(spi).rdr(),
                    M::TX_PERID,
                    M::RX_PERID,
                    config,
                    started,
                ) && from.len == tx@.len() && to.len == old(rx)@.len() && call_ensures(
                    slice_addr,
                    (tx,),
                    from.addr,
                ) && call_ensures(slice_addr, (&*old(rx),), to.addr),
            *final(spi) == *old(spi),
            final(rx)@.len() == old(rx)@.len(),
            started is Err ==> final(rx)@ == old(rx)@,
    {
        let from = Region { addr: slice_addr(tx), len: tx.len() };
        let to = Region { addr: slice_addr(&*rx), len: rx.len() };
        self.start_full_duplex(
            tx_channel,
            rx_channel,
            from,
            to,
            spi.dma_tdr_addr(),
            spi.dma_rdr_addr(),
            M::TX_PERID,
            M::RX_PERID,
            config,
        )
    }

    /// Starts a USART UART-mode memory-to-peripheral transmit transfer.
    pub fn usart_tx<'a, M: UsartDma>(
        &mut self,
        channel: Channel,
        tx: &'a mut uart::Tx<M>,
        bytes: &'a [u8],
        config: TransferConfig,
    ) -> (started: Result<Transfer<'a, PeripheralTx>, DmaError>)
        ensures
            old(tx).mode() != UsartMode::Uart ==> {
                &&& started matches Err(error) && error == DmaError::InvalidMode
                &&& final(self)@ == old(self)@
            },
            old(tx).mode() == UsartMode::Uart ==> exists|region: Region| #[trigger]
                tx_starts(
                    old(self)@,
                    final(self)@,
                    channel@,
                    region,
                    old(tx).thr(),
                    M::TX_PERID,
                    config,
                    started,
                ) && region.len == bytes@.len() && call_ensures(slice_addr, (bytes,), region.addr),
            *final(tx) == *old(tx),
    {
        if tx.dma_mode() != UsartMode::Uart {
            return Err(DmaError::InvalidMode);
        }
        let region = Region { addr: slice_addr(bytes), len: bytes.len() };
        self.start_tx(channel, region, tx.dma_thr_addr(), M::TX_PERID, config)
    }

    /// Starts a USART UART-mode peripheral-to-memory receive transfer.
    ///
    /// The controller writes to `bytes` while the transfer runs, so nothing is
    /// said of what they hold once it has been started.
    pub fn usart_rx<'a, M: UsartDma>(
        &mut self,
        channel: Channel,
        rx: &'a mut uart::Rx<M>,
        bytes: &'a mut [u8],
        config: TransferConfig,
    ) -> (started: Result<Transfer<'a, PeripheralRx>, DmaError>)
        ensures
            old(rx).mode() != UsartMode::Uart ==> {
                &&& started matches Err(error) && error == DmaError::InvalidMode
                &&& final(self)@ == old(self)@
            },
            old(rx).mode() == UsartMode::Uart ==> exists|region: Region| #[trigger]
                rx_starts(
                    old(self)@,
                    final(self)@,
                    channel@,
                    region,
                    old(rx).rhr(),
                    M::RX_PERID,
                    config,
                    started,
                ) && region.len == old(bytes)@.len() && call_ensures(
                    slice_addr,
                    (&*old(bytes),),
                    region.addr,
                ),
            *final(rx) == *old(rx),
            final(bytes)@.len() == old(bytes)@.len(),
            started is Err ==> final(bytes)@ == old(bytes)@,
    {
        if rx.dma_mode() != UsartMode::Uart {
            return Err(DmaError::InvalidMode);
        }
        let region = Region { addr: slice_addr(&*bytes), len: bytes.len() };
        self.start_rx(channel, region, rx.dma_rhr_addr(), M::RX_PERID, config)
    }

    /// Starts a USART UART-mode memory-to-peripheral transmit transfer.
    pub fn usart_uart_tx<'a, M: UsartDma>(
        &mut self,
        channel: Channel,
        uart: &'a mut uart::Uart<M>,
        bytes: &'a [u8],
        config: TransferConfig,
    ) -> (started: Result<Transfer<'a, PeripheralTx>, DmaError>)
        ensures
            old(uart).mode() != UsartMode::Uart ==> {
                &&& started matches Err(error) && error == DmaError::InvalidMode
                &&& final(self)@ == old(self)@
            },
            old(uart).mode() == UsartMode::Uart ==> exists|region: Region| #[trigger]
                tx_starts(
                    old(self)@,
                    final(self)@,
                    channel@,
                    region,
                    old(uart).thr(),
                    M::TX_PERID,
                    config,
                    started,
                ) && region.len == bytes@.len() && call_ensures(slice_addr, (bytes,), region.addr),
            *final(uart) == *old(uart),
    {
        if uart.dma_mode() != UsartMode::Uart {
            return Err(DmaError::InvalidMode);
        }
        let region = Region { addr: slice_addr(bytes), len: bytes.len() };
        self.start_tx(channel, region, uart.dma_thr_addr(), M::TX_PERID, config)
    }

    /// Starts a USART UART-mode peripheral-to-memory receive transfer.
    ///
    /// The controller writes to `bytes` while the transfer runs, so nothing is
    /// said of what they hold once it has been started.
    pub fn usart_uart_rx<'a, M: UsartDma>(
        &mut self,
        channel: Channel,
        uart: &'a mut uart::Uart<M>,
        bytes: &'a mut [u8],
        config: TransferConfig,
    ) -> (started: Result<Transfer<'a, PeripheralRx>, DmaError>)
        ensures
            old(uart).mode() != UsartMode::Uart ==> {
                &&& started matches Err(error) && error == DmaError::InvalidMode
                &&& final(self)@ == old(self)@
            },
            old(uart).mode() == UsartMode::Uart ==> exists|region: Region| #[trigger]
                rx_starts(
                    old(self)@,
                    final(self)@,
                    channel@,
                    region,
                    old(uart).rhr(),
                    M::RX_PERID,
                    config,
                    started,
                ) && region.len == old(bytes)@.len() && call_ensures(
                    slice_addr,
                    (&*old(bytes),),
                    region.addr,
                ),
            *final(uart) == *old(uart),
            final(bytes)@.len() == old(bytes)@.len(),
            started is Err ==> final(bytes)@ == old(bytes)@,
    {
        if uart.dma_mode() != UsartMode::Uart {
            return Err(DmaError::InvalidMode);
        }
        let region = Region { addr: slice_addr(&*bytes), len: bytes.len() };
        self.start_rx(channel, region, uart.dma_rhr_addr(), M::RX_PERID, config)
    }
}

} // verus!
