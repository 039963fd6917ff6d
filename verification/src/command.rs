//! Structures related to submitting command instructions to the GPU.

/// Barriers marked between pipeline stages.
pub mod barrier;
/// Frame buffers and the builders that describe them.
pub mod frame;
/// Information used to submit command buffers to a queue.
pub mod op_submit;
/// Short-term references to syncing objects.
pub mod syncing;
/// Command pools and the command buffers allocated from them.
pub mod pool;
/// Frame buffers for render passes.
pub mod framebuffer;
