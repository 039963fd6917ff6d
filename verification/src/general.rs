//! General structures: packed Vulkan version numbers, application info and surfaces.

pub mod app_info;
pub mod surface;
pub mod version;
