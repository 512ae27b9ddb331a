//! What a caller may choose about a transfer.

use crate::registers::{CC_DWIDTH_BYTE, CC_DWIDTH_HALFWORD, CC_DWIDTH_WORD};
use vstd::prelude::*;

verus! {

/// XDMAC transfer data width.
#[derive(Clone, Copy, Debug, PartialEq, Eq, Structural)]
pub enum DataWidth {
    /// 8-bit data items.
    Byte,
    /// 16-bit data items.
    HalfWord,
    /// 32-bit data items.
    Word,
}

impl DataWidth {
    /// The code of the width in the channel configuration word.
    pub open spec fn code(self) -> int {
        match self {
            DataWidth::Byte => 0,
            DataWidth::HalfWord => 1,
            DataWidth::Word => 2,
        }
    }

    /// Number of bytes in one item.
    pub open spec fn bytes(self) -> nat {
        match self {
            DataWidth::Byte => 1,
            DataWidth::HalfWord => 2,
            DataWidth::Word => 4,
        }
    }

    /// Number of whole items in `len` bytes.
    pub open spec fn items(self, len: nat) -> nat {
        match self {
            DataWidth::Byte => len,
            DataWidth::HalfWord => len / 2,
            DataWidth::Word => len / 4,
        }
    }

    /// Returns how many whole items there are in `len` bytes.
    pub(crate) fn count(self, len: usize) -> (count: usize)
        ensures
            count == self.items(len as nat),
            count <= len,
    {
        match self {
            DataWidth::Byte => len,
            DataWidth::HalfWord => len / 2,
            DataWidth::Word => len / 4,
        }
    }

    /// Returns the width as it stands in the channel configuration word.
    pub(crate) fn bits(self) -> (bits: u32)
        ensures
            bits == self.code() * 0x800,
    {
        match self {
            DataWidth::Byte => CC_DWIDTH_BYTE,
            DataWidth::HalfWord => CC_DWIDTH_HALFWORD,
            DataWidth::Word => CC_DWIDTH_WORD,
        }
    }
}

/// Transfer configuration shared by simple transfer constructors.
#[derive(Clone, Copy, Debug, PartialEq, Eq, Structural)]
pub struct TransferConfig {
    /// Width of one DMA data item.
    ///
    /// A transfer moves as many whole items as its buffer has bytes for. Bytes
    /// at the end that do not fill an item are not moved.
    pub width: DataWidth,
}

impl Default for TransferConfig {
    /// Moves one byte at a time.
    fn default() -> (config: TransferConfig)
        ensures
            config.width == DataWidth::Byte,
    {
        TransferConfig { width: DataWidth::Byte }
    }
}

} // verus!
