//! The write cursor of a chunk of memory that is writable on the CPU.
//!
//! Writes go one after the other; a write that would run past the end of the memory
//! is refused and changes nothing. The bytes themselves are copied by the caller to
//! the offset each accepted write is given.

use vstd::prelude::*;
use vstd::layout::size_of;

verus! {

/// The write cursor of a mapped allocation of `size` bytes.
pub struct Memory {
    size: usize,
    amount_written: usize,
}

impl Memory {
    pub closed spec fn spec_size(&self) -> usize {
        self.size
    }

    pub closed spec fn spec_amount_written(&self) -> usize {
        self.amount_written
    }

    /// Nothing is written past the end.
    pub open spec fn well_formed(&self) -> bool {
        self.spec_amount_written() <= self.spec_size()
    }

    /// Starts writing at the beginning of `size` bytes of memory.
    pub fn new(size: usize) -> (r: Memory)
        ensures
            r.well_formed(),
            r.spec_size() == size,
            r.spec_amount_written() == 0,
    {
        Memory { size, amount_written: 0 }
    }

    pub fn size(&self) -> (r: usize)
        ensures
            r == self.spec_size(),
    {
        self.size
    }

    pub fn amount_written(&self) -> (r: usize)
        ensures
            r == self.spec_amount_written(),
    {
        self.amount_written
    }

    /// Claims the next `byte_count` bytes: gives back their offset, or `None` (and
    /// claims nothing) when they would run past the end of the memory.
    pub fn write_bytes(&mut self, byte_count: usize) -> (r: Option<usize>)
        requires
            old(self).well_formed(),
        ensures
            final(self).well_formed(),
            final(self).spec_size() == old(self).spec_size(),
            byte_count <= old(self).spec_size() - old(self).spec_amount_written() ==> {
                &&& r == Some(old(self).spec_amount_written())
                &&& final(self).spec_amount_written() == old(self).spec_amount_written() + byte_count
            },
            byte_count > old(self).spec_size() - old(self).spec_amount_written() ==> {
                &&& r is None
                &&& final(self).spec_amount_written() == old(self).spec_amount_written()
            },
    {
        if byte_count > self.size - self.amount_written {
            return None;
        }
        let offset = self.amount_written;
        self.amount_written = self.amount_written + byte_count;
        Some(offset)
    }

    /// Claims room for a slice of items (`size_of::<T>() * len` bytes): gives back the
    /// offset to copy it to, or `None` when it would overflow the memory.
    pub fn write_slice<T>(&mut self, buf: &[T]) -> (r: Option<usize>)
        requires
            old(self).well_formed(),
            size_of::<T>() * buf@.len() <= usize::MAX,
        ensures
            final(self).well_formed(),
            final(self).spec_size() == old(self).spec_size(),
            size_of::<T>() * buf@.len() <= old(self).spec_size() - old(self).spec_amount_written() ==> {
                &&& r == Some(old(self).spec_amount_written())
                &&& final(self).spec_amount_written() == old(self).spec_amount_written() + size_of::<T>() * buf@.len()
            },
            size_of::<T>() * buf@.len() > old(self).spec_size() - old(self).spec_amount_written() ==> {
                &&& r is None
                &&& final(self).spec_amount_written() == old(self).spec_amount_written()
            },
    {
        let item_size = core::mem::size_of::<T>();
        let buf_size = item_size * buf.len();
        self.write_bytes(buf_size)
    }

    /// Claims room for one item (`size_of::<T>()` bytes): gives back the offset to copy
    /// it to, or `None` when it would overflow the memory.
    pub fn write_item<T>(&mut self, item: &T) -> (r: Option<usize>)
        requires
            old(self).well_formed(),
        ensures
            final(self).well_formed(),
            final(self).spec_size() == old(self).spec_size(),
            size_of::<T>() <= old(self).spec_size() - old(self).spec_amount_written() ==> {
                &&& r == Some(old(self).spec_amount_written())
                &&& final(self).spec_amount_written() == old(self).spec_amount_written() + size_of::<T>()
            },
            size_of::<T>() > old(self).spec_size() - old(self).spec_amount_written() ==> {
                &&& r is None
                &&& final(self).spec_amount_written() == old(self).spec_amount_written()
            },
    {
        let buf_size = core::mem::size_of::<T>();
        self.write_bytes(buf_size)
    }

    /// `io::Write::write`: the number of bytes accepted, all of `buf` or none of it.
    pub fn write(&mut self, buf: &[u8]) -> (r: usize)
        requires
            old(self).well_formed(),
        ensures
            final(self).well_formed(),
            final(self).spec_size() == old(self).spec_size(),
            buf@.len() <= old(self).spec_size() - old(self).spec_amount_written() ==> {
                &&& r == buf@.len()
                &&& final(self).spec_amount_written() == old(self).spec_amount_written() + buf@.len()
            },
            buf@.len() > old(self).spec_size() - old(self).spec_amount_written() ==> {
                &&& r == 0
                &&& final(self).spec_amount_written() == old(self).spec_amount_written()
            },
    {
        match self.write_bytes(buf.len()) {
            Some(_) => buf.len(),
            None => 0,
        }
    }
}

} // verus!
