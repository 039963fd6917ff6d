//! Various forwarded/exposed enumerations from Vulkan.

pub mod access;
pub mod attachment;
pub mod blend;
pub mod color_component;
pub mod flag_set;
pub mod format;
pub mod image_layout;
pub mod operation;
pub mod pipeline_stage;
pub mod sample_count;
pub mod shaderkind;
