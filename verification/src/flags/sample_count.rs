//! Sample counts (`VkSampleCountFlags`).

use vstd::prelude::*;
use crate::flags::flag_set::{all_mask, FlagBit, FlagSet, flag_bit, has_bit};

verus! {
/// The kind of image data that is sampled.
#[derive(Debug, Hash, PartialEq, Eq, Clone, Copy, Structural)]
pub enum ImageSampleKind {
    Color,
    Depth,
    Stencil,
}

/// A number of samples per pixel (ordered by count).
/// The variants are listed in the order of their `VkSampleCountFlagBits` bits: variant `i` is bit `1 << i`.
#[derive(Debug, Hash, PartialEq, Eq, Clone, Copy, Structural, PartialOrd, Ord)]
pub enum SampleCount {
    _1,
    _2,
    _4,
    _8,
    _16,
    _32,
    _64,
}

impl FlagBit for SampleCount {
    open spec fn spec_count() -> u32 {
        7
    }

    open spec fn spec_index(self) -> u32 {
        match self {
            SampleCount::_1 => 0,
            SampleCount::_2 => 1,
            SampleCount::_4 => 2,
            SampleCount::_8 => 3,
            SampleCount::_16 => 4,
            SampleCount::_32 => 5,
            SampleCount::_64 => 6,
        }
    }

    open spec fn spec_from_index(i: u32) -> Self {
        if i == 0 {
            SampleCount::_1
        } else if i == 1 {
            SampleCount::_2
        } else if i == 2 {
            SampleCount::_4
        } else if i == 3 {
            SampleCount::_8
        } else if i == 4 {
            SampleCount::_16
        } else if i == 5 {
            SampleCount::_32
        } else {
            SampleCount::_64
        }
    }

    fn count() -> (r: u32) {
        7
    }

    fn index(self) -> (r: u32) {
        match self {
            SampleCount::_1 => 0,
            SampleCount::_2 => 1,
            SampleCount::_4 => 2,
            SampleCount::_8 => 3,
            SampleCount::_16 => 4,
            SampleCount::_32 => 5,
            SampleCount::_64 => 6,
        }
    }

    fn from_index(i: u32) -> (r: Self) {
        if i == 0 {
            SampleCount::_1
        } else if i == 1 {
            SampleCount::_2
        } else if i == 2 {
            SampleCount::_4
        } else if i == 3 {
            SampleCount::_8
        } else if i == 4 {
            SampleCount::_16
        } else if i == 5 {
            SampleCount::_32
        } else {
            SampleCount::_64
        }
    }

    proof fn lemma_count() {
    }

    proof fn lemma_index(x: Self) {
    }

    proof fn lemma_from_index(i: u32) {
    }
}

impl Default for SampleCount {
    fn default() -> (r: Self)
        ensures
            r == SampleCount::_1,
    {
        SampleCount::_1
    }
}

impl SampleCount {
    /// The raw `VkSampleCountFlagBits` of the sample count.
    pub fn to_vk(self) -> (r: u32)
        ensures
            r == flag_bit(self),
    {
        1u32 << self.index()
    }

    /// The set of the sample counts whose bits are set in raw `VkSampleCountFlags`.
    pub fn as_set(flags: u32) -> (r: FlagSet<Self>)
        ensures
            r.well_formed(),
            r.view() == Set::new(|x: SampleCount| has_bit(flags, x.spec_index())),
            r.spec_mask() == flags & all_mask::<SampleCount>(),
    {
        FlagSet::from_mask(flags)
    }
}

} // verus!
