//! Extensible DMA Controller (XDMAC).
//!
//! A small safe ownership layer over the SAMx7x XDMAC. It supports runtime
//! channel allocation, memory-to-memory copies, SPI transfers, and USART
//! UART-mode transfers. A transfer stays inside the buffers that it was given.
//!
//! The crate decides and never touches the hardware: every operation appends
//! the register accesses it calls for to the manager's command queue, in
//! program order, and whoever owns the peripheral drains the queue with
//! [`Xdmac::take_commands`] and carries the commands out. What a channel
//! reports comes back as the plain words that were read from its interrupt
//! status register.
//!
//! # Cache coherency
//!
//! The Cortex-M7 data cache is not managed by this crate. Buffers used with
//! DMA must be placed in memory that is coherent with the XDMAC, or the
//! application must perform the required cache clean/invalidate operations
//! before and after transfers.

pub mod buffer;
pub mod capture;
pub mod capture_effects;
pub mod channel;
mod channel_map;
pub mod config;
pub mod controller;
pub mod descriptor;
pub mod effects;
pub mod error;
mod generics;
pub mod laws;
pub mod peripheral;
pub mod registers;
pub mod request;
pub mod spi;
pub mod status;
pub mod transfer;
pub mod uart;
pub mod usart;

pub use buffer::Region;
pub use channel::{Channel, ChannelSet};
pub use config::{DataWidth, TransferConfig};
pub use controller::Xdmac;
pub use descriptor::{DescriptorView0, DescriptorView1, DescriptorView2, DescriptorView3};
pub use error::DmaError;
pub use registers::{ChannelRegister, Command, Register};
pub use request::{SpiDma, UsartDma};
pub use status::{ChannelStatus, TransferStatus};
pub use transfer::{FullDuplex, MemToMem, PeripheralRx, PeripheralTx, StatusReading, Transfer};
