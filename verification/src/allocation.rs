//! Allocation management: how an object's memory is to be allocated, and the
//! bookkeeping of writes into a CPU-visible allocation.

pub mod info;
pub mod memory;
