//! Physical (GPU) and Logical device related structs.

/// Physical device related structs (for knowing about hardware).
pub mod physical;

/// Information used to construct a logical device.
pub mod logical;

/// Swapchains and their builder.
pub mod swapchain;
