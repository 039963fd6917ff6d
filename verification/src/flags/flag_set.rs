//! Sets of enumerated Vulkan flag bits.
//!
//! Each flag enumeration of this library lists its flags in the order of their Vulkan bits:
//! the flag at position `i` is the Vulkan bit `1 << i`. A [`FlagSet`] stores one bit per flag,
//! so its bit mask is also the raw Vulkan flags value.

use vstd::prelude::*;
use core::marker::PhantomData;

verus! {

/// An enumeration whose variants are the bits of a Vulkan flags type, in bit order.
pub trait FlagBit: Sized + Copy {
    /// The number of flags (all below 32).
    spec fn spec_count() -> u32;

    /// The position of the flag: its Vulkan bit is `1 << position`.
    spec fn spec_index(self) -> u32;

    /// The flag at a position.
    spec fn spec_from_index(i: u32) -> Self;

    fn count() -> (r: u32)
        ensures
            r == Self::spec_count(),
    ;

    fn index(self) -> (r: u32)
        ensures
            r == self.spec_index(),
    ;

    fn from_index(i: u32) -> (r: Self)
        requires
            i < Self::spec_count(),
        ensures
            r == Self::spec_from_index(i),
    ;

    proof fn lemma_count()
        ensures
            0 < Self::spec_count() < 32,
    ;

    proof fn lemma_index(x: Self)
        ensures
            x.spec_index() < Self::spec_count(),
            Self::spec_from_index(x.spec_index()) == x,
    ;

    proof fn lemma_from_index(i: u32)
        requires
            i < Self::spec_count(),
        ensures
            Self::spec_from_index(i).spec_index() == i,
    ;
}

/// The Vulkan bit of a flag.
pub open spec fn flag_bit<T: FlagBit>(x: T) -> u32 {
    1u32 << x.spec_index()
}

/// The mask of all the bits a flag enumeration has.
pub open spec fn all_mask<T: FlagBit>() -> u32 {
    ((1u32 << T::spec_count()) - 1) as u32
}

/// Is the bit at position `i` set in `bits`?
pub open spec fn has_bit(bits: u32, i: u32) -> bool {
    bits & (1u32 << i) != 0
}

pub proof fn lemma_bit_insert(b: u32, i: u32, j: u32)
    by (bit_vector)
    requires
        i < 32,
        j < 32,
    ensures
        ((b | (1u32 << i)) & (1u32 << j) != 0) == ((b & (1u32 << j) != 0) || i == j),
{
}

pub proof fn lemma_bit_empty(j: u32)
    by (bit_vector)
    requires
        j < 32,
    ensures
        (0u32 & (1u32 << j)) == 0,
{
}

pub proof fn lemma_bit_in_range(b: u32, n: u32, j: u32)
    by (bit_vector)
    requires
        n < 32,
        b < (1u32 << n),
        b & (1u32 << j) != 0,
        j < 32,
    ensures
        j < n,
{
}

pub proof fn lemma_bit_insert_in_range(b: u32, n: u32, i: u32)
    by (bit_vector)
    requires
        n < 32,
        b < (1u32 << n),
        i < n,
    ensures
        (b | (1u32 << i)) < (1u32 << n),
{
}

pub proof fn lemma_mask_bits(n: u32, j: u32)
    by (bit_vector)
    requires
        n < 32,
        j < 32,
    ensures
        (((1u32 << n) - 1) as u32 & (1u32 << j) != 0) == (j < n),
        (((1u32 << n) - 1) as u32) < (1u32 << n),
        0 < (1u32 << n),
{
}

pub proof fn lemma_restrict_bits(b: u32, n: u32, j: u32)
    by (bit_vector)
    requires
        n < 32,
        j < 32,
    ensures
        ((b & ((1u32 << n) - 1) as u32) & (1u32 << j) != 0) == ((b & (1u32 << j) != 0) && j < n),
        (b & ((1u32 << n) - 1) as u32) < (1u32 << n),
{
}

/// A set of flags, stored as the Vulkan bit mask of its members.
#[derive(Copy)]
pub struct FlagSet<T: FlagBit> {
    bits: u32,
    marker: PhantomData<T>,
}

impl<T: FlagBit> Clone for FlagSet<T> {
    fn clone(&self) -> (r: Self)
        ensures
            r == *self,
    {
        *self
    }
}

impl<T: FlagBit> FlagSet<T> {
    /// The members of the set.
    pub closed spec fn view(&self) -> Set<T> {
        Set::new(|x: T| has_bit(self.bits, x.spec_index()))
    }

    /// The stored mask holds no bit past the last flag.
    pub closed spec fn well_formed(&self) -> bool {
        self.bits < (1u32 << T::spec_count())
    }

    /// The raw Vulkan flags value of a set of flags.
    pub closed spec fn spec_mask(&self) -> u32 {
        self.bits
    }

    /// The set with no flags.
    pub fn empty() -> (r: Self)
        ensures
            r.well_formed(),
            r.view() == Set::<T>::empty(),
    {
        proof {
            T::lemma_count();
            lemma_mask_bits(T::spec_count(), 0);
            assert forall|x: T| !has_bit(0u32, x.spec_index()) by {
                T::lemma_index(x);
                lemma_bit_empty(x.spec_index());
            }
        }
        let r = FlagSet { bits: 0, marker: PhantomData };
        proof {
            assert(r.view() =~= Set::<T>::empty());
        }
        r
    }

    /// The set of every flag.
    pub fn all() -> (r: Self)
        ensures
            r.well_formed(),
            r.view() == Set::<T>::full(),
    {
        let n = T::count();
        proof {
            T::lemma_count();
            lemma_mask_bits(n, 0);
        }
        let bits: u32 = (1u32 << n) - 1;
        let r = FlagSet { bits, marker: PhantomData };
        proof {
            lemma_mask_bits(n, 0);
            assert forall|x: T| r.view().contains(x) by {
                T::lemma_index(x);
                lemma_mask_bits(n, x.spec_index());
            }
            assert(r.view() =~= Set::<T>::full());
        }
        r
    }

    /// Is the flag in the set?
    pub fn contains(&self, x: T) -> (r: bool)
        ensures
            r == self.view().contains(x),
    {
        proof {
            T::lemma_index(x);
            T::lemma_count();
        }
        let i = x.index();
        self.bits & (1u32 << i) != 0
    }

    /// Adds a flag to the set.
    pub fn insert(&mut self, x: T)
        requires
            old(self).well_formed(),
        ensures
            final(self).well_formed(),
            final(self).view() == old(self).view().insert(x),
    {
        proof {
            T::lemma_index(x);
            T::lemma_count();
        }
        let ghost before = self.bits;
        let i = x.index();
        self.bits = self.bits | (1u32 << i);
        proof {
            lemma_bit_insert_in_range(before, T::spec_count(), i);
            assert forall|y: T| self.view().contains(y) == old(self).view().insert(x).contains(y) by {
                T::lemma_index(y);
                lemma_bit_insert(before, i, y.spec_index());
                if y.spec_index() == i {
                    T::lemma_index(x);
                }
            }
            assert(self.view() =~= old(self).view().insert(x));
        }
    }

    /// The set of the flags listed in a vector.
    pub fn from_vec(vec: &Vec<T>) -> (r: Self)
        ensures
            r.well_formed(),
            r.view() == vec@.to_set(),
    {
        let mut set = Self::empty();
        let mut i: usize = 0;
        while i < vec.len()
            invariant
                i <= vec@.len(),
                set.well_formed(),
                set.view() == vec@.take(i as int).to_set(),
            decreases vec.len() - i,
        {
            set.insert(vec[i]);
            proof {
                let before = vec@.take(i as int);
                let after = vec@.take(i as int + 1);
                assert forall|a: T| after.contains(a) == before.to_set().insert(vec@[i as int]).contains(a) by {
                    if after.contains(a) {
                        let k = choose|k: int| 0 <= k < after.len() && after[k] == a;
                        if k < i {
                            assert(before[k] == a);
                        }
                    }
                    if before.contains(a) {
                        let k = choose|k: int| 0 <= k < before.len() && before[k] == a;
                        assert(after[k] == a);
                    }
                    if a == vec@[i as int] {
                        assert(after[i as int] == a);
                    }
                }
                assert(after.to_set() =~= before.to_set().insert(vec@[i as int]));
            }
            i = i + 1;
        }
        proof {
            assert(vec@.take(vec@.len() as int) =~= vec@);
        }
        set
    }
}

impl<T: FlagBit> FlagSet<T> {
    /// The raw Vulkan flags value of the set: the bits of its members, and no other bit.
    pub fn mask(&self) -> (r: u32)
        requires
            self.well_formed(),
        ensures
            r == self.spec_mask(),
            forall|x: T| #[trigger] has_bit(r, x.spec_index()) == self.view().contains(x),
            r < (1u32 << T::spec_count()),
    {
        self.bits
    }

    /// The set of the flags whose bits are set in a raw Vulkan flags value
    /// (bits that are no flag of `T` are ignored).
    pub fn from_mask(flags: u32) -> (r: Self)
        ensures
            r.well_formed(),
            r.view() == Set::new(|x: T| has_bit(flags, x.spec_index())),
            r.spec_mask() == flags & all_mask::<T>(),
    {
        let n = T::count();
        proof {
            T::lemma_count();
            lemma_mask_bits(n, 0);
        }
        let all: u32 = (1u32 << n) - 1;
        let r = FlagSet { bits: flags & all, marker: PhantomData };
        proof {
            lemma_restrict_bits(flags, n, 0);
            assert forall|x: T| r.view().contains(x) == has_bit(flags, x.spec_index()) by {
                T::lemma_index(x);
                lemma_restrict_bits(flags, n, x.spec_index());
            }
            assert(r.view() =~= Set::new(|x: T| has_bit(flags, x.spec_index())));
        }
        r
    }

    /// The members of the set, in the order of their bits.
    pub fn to_vec(&self) -> (r: Vec<T>)
        requires
            self.well_formed(),
        ensures
            r@.to_set() == self.view(),
            forall|i: int, j: int| 0 <= i < j < r@.len() ==> r@[i].spec_index() < r@[j].spec_index(),
    {
        let n = T::count();
        proof {
            T::lemma_count();
        }
        let mut out: Vec<T> = Vec::new();
        let mut i: u32 = 0;
        while i < n
            invariant
                n == T::spec_count(),
                0 < n < 32,
                i <= n,
                forall|k: int| 0 <= k < out@.len() ==> #[trigger] out@[k].spec_index() < i,
                forall|a: int, b: int| 0 <= a < b < out@.len() ==> out@[a].spec_index() < out@[b].spec_index(),
                forall|x: T| x.spec_index() < i ==> (out@.contains(x) <==> self.view().contains(x)),
                forall|x: T| out@.contains(x) ==> x.spec_index() < i,
            decreases n - i,
        {
            let x = T::from_index(i);
            proof {
                T::lemma_from_index(i);
            }
            let ghost before = out@;
            if self.bits & (1u32 << i) != 0 {
                out.push(x);
            }
            proof {
                assert forall|y: T| y.spec_index() < i + 1 implies (out@.contains(y) <==> self.view().contains(y)) by {
                    T::lemma_index(y);
                    if y.spec_index() == i {
                        assert(y == x);
                        if self.view().contains(y) {
                            assert(out@[out@.len() - 1] == y);
                        } else {
                            if out@.contains(y) {
                                let k = choose|k: int| 0 <= k < out@.len() && out@[k] == y;
                                assert(k < before.len());
                                assert(before.contains(y));
                            }
                        }
                    } else {
                        if out@.contains(y) {
                            let k = choose|k: int| 0 <= k < out@.len() && out@[k] == y;
                            if k == before.len() {
                                assert(y == x);
                            } else {
                                assert(before[k] == y);
                            }
                        }
                        if before.contains(y) {
                            let k = choose|k: int| 0 <= k < before.len() && before[k] == y;
                            assert(out@[k] == y);
                        }
                    }
                }
                assert forall|y: T| out@.contains(y) implies y.spec_index() < i + 1 by {
                    let k = choose|k: int| 0 <= k < out@.len() && out@[k] == y;
                    if k < before.len() {
                        assert(before[k] == y);
                        assert(before.contains(y));
                    }
                }
            }
            i = i + 1;
        }
        proof {
            assert forall|x: T| out@.to_set().contains(x) == self.view().contains(x) by {
                T::lemma_index(x);
            }
            assert(out@.to_set() =~= self.view());
        }
        out
    }
}


/// The first seventeen bits `1 << k`, as the hexadecimal constants the Vulkan headers write them in.
pub proof fn lemma_low_bits()
    by (bit_vector)
    ensures
        1u32 << 0u32 == 0x1u32,
        1u32 << 1u32 == 0x2u32,
        1u32 << 2u32 == 0x4u32,
        1u32 << 3u32 == 0x8u32,
        1u32 << 4u32 == 0x10u32,
        1u32 << 5u32 == 0x20u32,
        1u32 << 6u32 == 0x40u32,
        1u32 << 7u32 == 0x80u32,
        1u32 << 8u32 == 0x100u32,
        1u32 << 9u32 == 0x200u32,
        1u32 << 10u32 == 0x400u32,
        1u32 << 11u32 == 0x800u32,
        1u32 << 12u32 == 0x1000u32,
        1u32 << 13u32 == 0x2000u32,
        1u32 << 14u32 == 0x4000u32,
        1u32 << 15u32 == 0x8000u32,
        1u32 << 16u32 == 0x10000u32,
{
}

} // verus!
