//! Which channels are leased.

use crate::registers::{ALL_CHANNELS, CHANNELS};
use vstd::prelude::*;

verus! {

/// A set of channel numbers, one bit for each hardware channel.
pub struct ChannelMap {
    bits: u32,
}

impl ChannelMap {
    /// No bit is set but those of the hardware channels.
    #[verifier::type_invariant]
    spec fn only_hardware_channels(self) -> bool {
        self.bits <= ALL_CHANNELS
    }

    /// The channel numbers in the set.
    pub closed spec fn view(&self) -> Set<u8> {
        Set::new(|index: u8| index < CHANNELS && self.bits & (1u32 << index) != 0)
    }

    /// Returns the set without channels.
    pub fn empty() -> (map: ChannelMap)
        ensures
            map@ == Set::<u8>::empty(),
    {
        let map = ChannelMap { bits: 0 };
        proof {
            assert(forall|index: u8| 0u32 & (1u32 << index) == 0) by (bit_vector);
            assert(map@ =~= Set::<u8>::empty());
        }
        map
    }

    /// Tells whether channel `index` is in the set.
    pub fn contains(&self, index: u8) -> (found: bool)
        requires
            index < CHANNELS,
        ensures
            found == self@.contains(index),
    {
        self.bits & (1u32 << index) != 0
    }

    /// Adds channel `index`.
    pub fn insert(&mut self, index: u8)
        requires
            index < CHANNELS,
        ensures
            final(self)@ == old(self)@.insert(index),
    {
        proof {
            use_type_invariant(&*self);
        }
        let bits: u32 = self.bits;
        assert(bits | (1u32 << index) <= 0x00ff_ffffu32) by (bit_vector)
            requires
                bits <= 0x00ff_ffffu32,
                index < 24u8,
        ;
        assert(forall|other: u8|
            other < 24u8 ==> (#[trigger] ((bits | (1u32 << index)) & (1u32 << other)) != 0) == (bits
                & (1u32 << other) != 0 || other == index)) by (bit_vector)
            requires
                index < 24u8,
        ;
        self.bits = bits | (1u32 << index);
        assert(self@ =~= old(self)@.insert(index));
    }

    /// Removes channel `index`.
    pub fn remove(&mut self, index: u8)
        requires
            index < CHANNELS,
        ensures
            final(self)@ == old(self)@.remove(index),
    {
        proof {
            use_type_invariant(&*self);
        }
        let bits: u32 = self.bits;
        assert(bits & !(1u32 << index) <= 0x00ff_ffffu32) by (bit_vector)
            requires
                bits <= 0x00ff_ffffu32,
        ;
        assert(forall|other: u8|
            other < 24u8 ==> (#[trigger] ((bits & !(1u32 << index)) & (1u32 << other)) != 0) == (
            bits & (1u32 << other) != 0 && other != index)) by (bit_vector)
            requires
                index < 24u8,
        ;
        self.bits = bits & !(1u32 << index);
        assert(self@ =~= old(self)@.remove(index));
    }
}

} // verus!
