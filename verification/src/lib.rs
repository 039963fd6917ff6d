//! # Vulkan-rs
//!
//! A rust-safe interface for describing Vulkan structures and the commands sent to the GPU.
//! The values the library computes are the raw Vulkan enumerants and flag masks
//! (as `i32` / `u32`), exactly as the Vulkan headers number them.

pub mod allocation;
pub mod buffer;
pub mod command;
pub mod context;
pub mod descriptor;
pub mod device;
pub mod flags;
pub mod general;
pub mod image;
pub mod image_view;
pub mod instance;
pub mod structs;
pub mod text;
