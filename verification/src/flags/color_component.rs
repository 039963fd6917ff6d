//! Color components (`VkColorComponentFlags`).

use vstd::prelude::*;
use crate::flags::flag_set::{FlagBit, FlagSet, flag_bit, has_bit};
use crate::text::str_equals;

verus! {
/// A color channel.
/// The variants are listed in the order of their `VkColorComponentFlagBits` bits: variant `i` is bit `1 << i`.
#[derive(Debug, Hash, PartialEq, Eq, Clone, Copy, Structural)]
pub enum ColorComponent {
    R,
    G,
    B,
    A,
}

impl FlagBit for ColorComponent {
    open spec fn spec_count() -> u32 {
        4
    }

    open spec fn spec_index(self) -> u32 {
        match self {
            ColorComponent::R => 0,
            ColorComponent::G => 1,
            ColorComponent::B => 2,
            ColorComponent::A => 3,
        }
    }

    open spec fn spec_from_index(i: u32) -> Self {
        if i == 0 {
            ColorComponent::R
        } else if i == 1 {
            ColorComponent::G
        } else if i == 2 {
            ColorComponent::B
        } else {
            ColorComponent::A
        }
    }

    fn count() -> (r: u32) {
        4
    }

    fn index(self) -> (r: u32) {
        match self {
            ColorComponent::R => 0,
            ColorComponent::G => 1,
            ColorComponent::B => 2,
            ColorComponent::A => 3,
        }
    }

    fn from_index(i: u32) -> (r: Self) {
        if i == 0 {
            ColorComponent::R
        } else if i == 1 {
            ColorComponent::G
        } else if i == 2 {
            ColorComponent::B
        } else {
            ColorComponent::A
        }
    }

    proof fn lemma_count() {
    }

    proof fn lemma_index(x: Self) {
    }

    proof fn lemma_from_index(i: u32) {
    }
}

impl ColorComponent {
    /// The raw `VkColorComponentFlags` bit of the flag.
    pub fn to_vk(self) -> (r: u32)
        ensures
            r == flag_bit(self),
    {
        1u32 << self.index()
    }

    /// The set of the flags listed in a vector.
    pub fn vecset(vec: &Vec<Self>) -> (r: FlagSet<Self>)
        ensures
            r.well_formed(),
            r.view() == vec@.to_set(),
    {
        FlagSet::from_vec(vec)
    }

    /// The raw `VkColorComponentFlags` value with the bits of the flags in the set.
    pub fn fold(set: &FlagSet<Self>) -> (r: u32)
        requires
            set.well_formed(),
        ensures
            r == set.spec_mask(),
            forall|x: Self| #[trigger] has_bit(r, x.spec_index()) == set.view().contains(x),
            r < (1u32 << Self::spec_count()),
    {
        set.mask()
    }
}

} // verus!
