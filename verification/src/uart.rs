//! USART peripherals set up as a UART, whole or split into their two halves.

use crate::usart::UsartMode;
use core::marker::PhantomData;
use vstd::prelude::*;

verus! {

/// The transmitting half of a UART.
pub struct Tx<M> {
    mode: UsartMode,
    thr: u32,
    meta: PhantomData<M>,
}

impl<M> Tx<M> {
    /// The mode that the peripheral is in.
    pub closed spec fn mode(self) -> UsartMode {
        self.mode
    }

    /// Address of the transmit holding register.
    pub closed spec fn thr(self) -> u32 {
        self.thr
    }

    /// The half of a peripheral in the given mode whose transmit holding
    /// register lies at the given address.
    pub fn new(mode: UsartMode, thr: u32) -> (tx: Self)
        ensures
            tx.mode() == mode,
            tx.thr() == thr,
    {
        Tx { mode, thr, meta: PhantomData }
    }

    /// Returns the mode that the peripheral is in.
    pub fn dma_mode(&self) -> (mode: UsartMode)
        ensures
            mode == self.mode(),
    {
        self.mode
    }

    /// Returns the address of the transmit holding register.
    pub fn dma_thr_addr(&self) -> (addr: u32)
        ensures
            addr == self.thr(),
    {
        self.thr
    }
}

/// The receiving half of a UART.
pub struct Rx<M> {
    mode: UsartMode,
    rhr: u32,
    meta: PhantomData<M>,
}

impl<M> Rx<M> {
    /// The mode that the peripheral is in.
    pub closed spec fn mode(self) -> UsartMode {
        self.mode
    }

    /// Address of the receive holding register.
    pub closed spec fn rhr(self) -> u32 {
        self.rhr
    }

    /// The half of a peripheral in the given mode whose receive holding
    /// register lies at the given address.
    pub fn new(mode: UsartMode, rhr: u32) -> (rx: Self)
        ensures
            rx.mode() == mode,
            rx.rhr() == rhr,
    {
        Rx { mode, rhr, meta: PhantomData }
    }

    /// Returns the mode that the peripheral is in.
    pub fn dma_mode(&self) -> (mode: UsartMode)
        ensures
            mode == self.mode(),
    {
        self.mode
    }

    /// Returns the address of the receive holding register.
    pub fn dma_rhr_addr(&self) -> (addr: u32)
        ensures
            addr == self.rhr(),
    {
        self.rhr
    }
}

/// A whole UART.
pub struct Uart<M> {
    mode: UsartMode,
    thr: u32,
    rhr: u32,
    meta: PhantomData<M>,
}

impl<M> Uart<M> {
    /// The mode that the peripheral is in.
    pub closed spec fn mode(self) -> UsartMode {
        self.mode
    }

    /// Address of the transmit holding register.
    pub closed spec fn thr(self) -> u32 {
        self.thr
    }

    /// Address of the receive holding register.
    pub closed spec fn rhr(self) -> u32 {
        self.rhr
    }

    /// The peripheral in the given mode whose transmit and receive holding
    /// registers lie at the given addresses.
    pub fn new(mode: UsartMode, thr: u32, rhr: u32) -> (uart: Self)
        ensures
            uart.mode() == mode,
            uart.thr() == thr,
            uart.rhr() == rhr,
    {
        Uart { mode, thr, rhr, meta: PhantomData }
    }

    /// Returns the mode that the peripheral is in.
    pub fn dma_mode(&self) -> (mode: UsartMode)
        ensures
            mode == self.mode(),
    {
        self.mode
    }

    /// Returns the address of the transmit holding register.
    pub fn dma_thr_addr(&self) -> (addr: u32)
        ensures
            addr == self.thr(),
    {
        self.thr
    }

    /// Returns the address of the receive holding register.
    pub fn dma_rhr_addr(&self) -> (addr: u32)
        ensures
            addr == self.rhr(),
    {
        self.rhr
    }
}

} // verus!
