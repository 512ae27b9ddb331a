//! Linked-list descriptors, as the controller fetches them from memory.

use crate::registers::weigh;
use vstd::prelude::*;

verus! {

/// XDMAC descriptor view 0.
#[derive(Clone, Copy, Debug, PartialEq, Eq, Structural)]
pub struct DescriptorView0 {
    /// Next descriptor address.
    pub mbr_nda: u32,
    /// Microblock control member.
    pub mbr_ubc: u32,
    /// Destination address member.
    pub mbr_da: u32,
}

impl Default for DescriptorView0 {
    /// All members are zero.
    fn default() -> (view: DescriptorView0)
        ensures
            view == (DescriptorView0 { mbr_nda: 0, mbr_ubc: 0, mbr_da: 0 }),
    {
        DescriptorView0 { mbr_nda: 0, mbr_ubc: 0, mbr_da: 0 }
    }
}

/// XDMAC descriptor view 1.
#[derive(Clone, Copy, Debug, PartialEq, Eq, Structural)]
pub struct DescriptorView1 {
    /// Next descriptor address.
    pub mbr_nda: u32,
    /// Microblock control member.
    pub mbr_ubc: u32,
    /// Source address member.
    pub mbr_sa: u32,
    /// Destination address member.
    pub mbr_da: u32,
}

impl Default for DescriptorView1 {
    /// All members are zero.
    fn default() -> (view: DescriptorView1)
        ensures
            view == (DescriptorView1 { mbr_nda: 0, mbr_ubc: 0, mbr_sa: 0, mbr_da: 0 }),
    {
        DescriptorView1 { mbr_nda: 0, mbr_ubc: 0, mbr_sa: 0, mbr_da: 0 }
    }
}

/// XDMAC descriptor view 2.
#[derive(Clone, Copy, Debug, PartialEq, Eq, Structural)]
pub struct DescriptorView2 {
    /// Next descriptor address.
    pub mbr_nda: u32,
    /// Microblock control member.
    pub mbr_ubc: u32,
    /// Source address member.
    pub mbr_sa: u32,
    /// Destination address member.
    pub mbr_da: u32,
    /// Channel configuration register value.
    pub mbr_cfg: u32,
}

impl Default for DescriptorView2 {
    /// All members are zero.
    fn default() -> (view: DescriptorView2)
        ensures
            view == (DescriptorView2 { mbr_nda: 0, mbr_ubc: 0, mbr_sa: 0, mbr_da: 0, mbr_cfg: 0 }),
    {
        DescriptorView2 { mbr_nda: 0, mbr_ubc: 0, mbr_sa: 0, mbr_da: 0, mbr_cfg: 0 }
    }
}

/// XDMAC descriptor view 3.
#[derive(Clone, Copy, Debug, PartialEq, Eq, Structural)]
pub struct DescriptorView3 {
    /// Next descriptor address.
    pub mbr_nda: u32,
    /// Microblock control member.
    pub mbr_ubc: u32,
    /// Source address member.
    pub mbr_sa: u32,
    /// Destination address member.
    pub mbr_da: u32,
    /// Channel configuration register value.
    pub mbr_cfg: u32,
    /// Block control member.
    pub mbr_bc: u32,
    /// Data stride member.
    pub mbr_ds: u32,
    /// Source microblock stride member.
    pub mbr_sus: u32,
    /// Destination microblock stride member.
    pub mbr_dus: u32,
}

impl Default for DescriptorView3 {
    /// All members are zero.
    fn default() -> (view: DescriptorView3)
        ensures
            view == (DescriptorView3 {
                mbr_nda: 0,
                mbr_ubc: 0,
                mbr_sa: 0,
                mbr_da: 0,
                mbr_cfg: 0,
                mbr_bc: 0,
                mbr_ds: 0,
                mbr_sus: 0,
                mbr_dus: 0,
            }),
    {
        DescriptorView3 {
            mbr_nda: 0,
            mbr_ubc: 0,
            mbr_sa: 0,
            mbr_da: 0,
            mbr_cfg: 0,
            mbr_bc: 0,
            mbr_ds: 0,
            mbr_sus: 0,
            mbr_dus: 0,
        }
    }
}

/// The control byte of a descriptor: which members are to be updated when the
/// next descriptor is fetched, and in which view it comes.
#[derive(Clone, Copy, Debug, PartialEq, Eq, Structural)]
pub struct XdmacDescriptorControl(pub u8);

/// Fetch the next descriptor.
const FETCH_ENABLE: u8 = 0x01;

/// Take the source address from the next descriptor.
const SOURCE_UPDATE: u8 = 0x02;

/// Take the destination address from the next descriptor.
const DESTINATION_UPDATE: u8 = 0x04;

/// Position of the view number.
const VIEW_SHIFT: u8 = 3;

impl XdmacDescriptorControl {
    /// Puts the control byte together. Only the two low bits of the view
    /// number count.
    pub fn new(
        fetch_enable: bool,
        source_update: bool,
        destination_update: bool,
        view: u8,
    ) -> (control: XdmacDescriptorControl)
        ensures
            control.0 == weigh(fetch_enable, 0x01) + weigh(source_update, 0x02) + weigh(
                destination_update,
                0x04,
            ) + (view % 4) * 0x08,
    {
        let fetch: u8 = if fetch_enable {
            FETCH_ENABLE
        } else {
            0
        };
        let source: u8 = if source_update {
            SOURCE_UPDATE
        } else {
            0
        };
        let destination: u8 = if destination_update {
            DESTINATION_UPDATE
        } else {
            0
        };
        assert(fetch | source | destination | ((view & 0b11) << VIEW_SHIFT) == fetch + source
            + destination + (view % 4) * 8) by (bit_vector)
            requires
                fetch == 0 || fetch == 1,
                source == 0 || source == 2,
                destination == 0 || destination == 4,
        ;
        XdmacDescriptorControl(fetch | source | destination | ((view & 0b11) << VIEW_SHIFT))
    }
}

} // verus!
