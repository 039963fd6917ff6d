//! How the messages of the validation layers are reported: the log level each
//! severity maps to, and the log target each message type goes to.

use vstd::prelude::*;
use vstd::string::StringExecFns;

verus! {

/// The log level a validation message is reported at.
#[derive(Debug, PartialEq, Eq, Clone, Copy, Structural)]
pub enum MessageLevel {
    Trace,
    Debug,
    Info,
    Warn,
    Error,
}

/// The level of a message of one severity (a raw `VkDebugUtilsMessageSeverityFlagsEXT`):
/// verbose is traced; info, warning and error map to their levels; anything else is debug.
pub open spec fn spec_message_level(severity: u32) -> MessageLevel {
    if severity == 0x1 {
        MessageLevel::Trace
    } else if severity == 0x10 {
        MessageLevel::Info
    } else if severity == 0x100 {
        MessageLevel::Warn
    } else if severity == 0x1000 {
        MessageLevel::Error
    } else {
        MessageLevel::Debug
    }
}

pub fn message_level(severity: u32) -> (r: MessageLevel)
    ensures
        r == spec_message_level(severity),
{
    if severity == 0x1 {
        MessageLevel::Trace
    } else if severity == 0x10 {
        MessageLevel::Info
    } else if severity == 0x100 {
        MessageLevel::Warn
    } else if severity == 0x1000 {
        MessageLevel::Error
    } else {
        MessageLevel::Debug
    }
}

/// The log target of a message of one type (a raw `VkDebugUtilsMessageTypeFlagsEXT`):
/// `vulkan-general`, `vulkan-performance`, `vulkan-validation`, or `vulkan-unknown`.
pub open spec fn spec_message_target(kind: u32) -> Seq<char> {
    "vulkan-"@ + if kind == 0x1 {
        "general"@
    } else if kind == 0x4 {
        "performance"@
    } else if kind == 0x2 {
        "validation"@
    } else {
        "unknown"@
    }
}

pub fn message_target(kind: u32) -> (r: String)
    ensures
        r@ == spec_message_target(kind),
{
    let mut target = String::from_str("vulkan-");
    let name = if kind == 0x1 {
        "general"
    } else if kind == 0x4 {
        "performance"
    } else if kind == 0x2 {
        "validation"
    } else {
        "unknown"
    };
    target.append(name);
    target
}

} // verus!
