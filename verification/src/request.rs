//! The request lines by which peripherals ask the controller for data.

use crate::generics::Sealed;
use crate::spi::{Spi0, Spi1};
use crate::usart::{Usart0, Usart1, Usart2};
use vstd::prelude::*;

verus! {

/// Sealed SPI DMA request metadata.
pub trait SpiDma: Sealed {
    /// XDMAC transmit request line.
    const TX_PERID: u8;

    /// XDMAC receive request line.
    const RX_PERID: u8;
}

/// Sealed USART DMA request metadata.
pub trait UsartDma: Sealed {
    /// XDMAC transmit request line.
    const TX_PERID: u8;

    /// XDMAC receive request line.
    const RX_PERID: u8;
}

impl SpiDma for Spi0 {
    const TX_PERID: u8 = 1;

    const RX_PERID: u8 = 2;
}

impl SpiDma for Spi1 {
    const TX_PERID: u8 = 3;

    const RX_PERID: u8 = 4;
}

impl UsartDma for Usart0 {
    const TX_PERID: u8 = 7;

    const RX_PERID: u8 = 8;
}

impl UsartDma for Usart1 {
    const TX_PERID: u8 = 9;

    const RX_PERID: u8 = 10;
}

impl UsartDma for Usart2 {
    const TX_PERID: u8 = 11;

    const RX_PERID: u8 = 12;
}

/// The request lines of the peripherals. No two of them share one.
pub proof fn request_lines()
    ensures
        <Spi0 as SpiDma>::TX_PERID == 1,
        <Spi0 as SpiDma>::RX_PERID == 2,
        <Spi1 as SpiDma>::TX_PERID == 3,
        <Spi1 as SpiDma>::RX_PERID == 4,
        <Usart0 as UsartDma>::TX_PERID == 7,
        <Usart0 as UsartDma>::RX_PERID == 8,
        <Usart1 as UsartDma>::TX_PERID == 9,
        <Usart1 as UsartDma>::RX_PERID == 10,
        <Usart2 as UsartDma>::TX_PERID == 11,
        <Usart2 as UsartDma>::RX_PERID == 12,
{
}

} // verus!
