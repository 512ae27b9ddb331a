//! USART peripherals, as far as DMA is concerned with them.

use crate::generics::Sealed;
use vstd::prelude::*;

verus! {

/// The first USART peripheral.
pub enum Usart0 {
    /// There is no value of this type.
    Never(core::convert::Infallible),
}

/// The second USART peripheral.
pub enum Usart1 {
    /// There is no value of this type.
    Never(core::convert::Infallible),
}

/// The third USART peripheral.
pub enum Usart2 {
    /// There is no value of this type.
    Never(core::convert::Infallible),
}

impl Sealed for Usart0 {

}

impl Sealed for Usart1 {

}

impl Sealed for Usart2 {

}

/// The operating mode of a USART peripheral.
#[derive(Clone, Copy, Debug, PartialEq, Eq, Structural)]
pub enum UsartMode {
    /// Universal asynchronous receiver-transmitter, the mode that DMA needs.
    Uart,
    /// Any other mode.
    Other,
}

impl UsartMode {
    /// Returns the mode in a word read from a USART mode register: its low
    /// four bits hold the number of the mode, and UART is number zero.
    pub fn from_mode_word(word: u32) -> (mode: UsartMode)
        ensures
            mode == (if word % 16 == 0 {
                UsartMode::Uart
            } else {
                UsartMode::Other
            }),
    {
        if word % 16 == 0 {
            UsartMode::Uart
        } else {
            UsartMode::Other
        }
    }
}

} // verus!
