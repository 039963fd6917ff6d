//! How images are attached to render passes.

use vstd::prelude::*;
use crate::flags::operation::{LoadOp, StoreOp};

verus! {

/// The role of an attachment in a subpass.
#[derive(Debug, Clone, Copy, PartialEq, Eq, Structural)]
pub enum AttachmentKind {
    Input,
    Color,
    Resolve,
    Preserve,
    DepthStencil,
}

/// The load and store operations that can be performed on an image
/// that is attached to a render pass and its subpasses.
#[derive(Debug, Clone, Copy, PartialEq, Eq, Structural)]
pub struct AttachmentOps {
    pub load: LoadOp,
    pub store: StoreOp,
}

impl Default for AttachmentOps {
    fn default() -> (r: Self)
        ensures
            r.load == LoadOp::DontCare,
            r.store == StoreOp::DontCare,
    {
        AttachmentOps { load: LoadOp::default(), store: StoreOp::default() }
    }
}

} // verus!
