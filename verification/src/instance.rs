//! Vulkan instance creation: the information it is made from, and the choice of a
//! physical device for it.

pub mod info;
pub mod messages;
