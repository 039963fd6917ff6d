//! Buffers (for sending/storing chunks of data on the GPU) and their builder.

pub mod builder;
