//! Structures related to describing data that gets sent to the GPU via buffers and pipelines:
//! descriptor sets, their layouts and pools, and the queue of updates applied to them.

pub mod layout;
pub mod pool;
pub mod set;
pub mod update;
