//! SPI peripherals, as far as DMA is concerned with them.

use crate::generics::Sealed;
use core::marker::PhantomData;
use vstd::prelude::*;

verus! {

/// The first SPI peripheral.
pub enum Spi0 {
    /// There is no value of this type.
    Never(core::convert::Infallible),
}

/// The second SPI peripheral.
pub enum Spi1 {
    /// There is no value of this type.
    Never(core::convert::Infallible),
}

impl Sealed for Spi0 {

}

impl Sealed for Spi1 {

}

/// An SPI peripheral that is ready for transfers, known by the addresses of
/// its data registers.
pub struct Spi<M> {
    tdr: u32,
    rdr: u32,
    meta: PhantomData<M>,
}

impl<M> Spi<M> {
    /// Address of the transmit data register.
    pub closed spec fn tdr(self) -> u32 {
        self.tdr
    }

    /// Address of the receive data register.
    pub closed spec fn rdr(self) -> u32 {
        self.rdr
    }

    /// The peripheral whose transmit and receive data registers lie at the
    /// given addresses.
    pub fn new(tdr: u32, rdr: u32) -> (spi: Self)
        ensures
            spi.tdr() == tdr,
            spi.rdr() == rdr,
    {
        Spi { tdr, rdr, meta: PhantomData }
    }

    /// Returns the address of the transmit data register.
    pub fn dma_tdr_addr(&self) -> (addr: u32)
        ensures
            addr == self.tdr(),
    {
        self.tdr
    }

    /// Returns the address of the receive data register.
    pub fn dma_rdr_addr(&self) -> (addr: u32)
        ensures
            addr == self.rdr(),
    {
        self.rdr
    }
}

} // verus!
