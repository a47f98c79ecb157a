use vstd::prelude::*;

verus! {

/// `VK_DEBUG_UTILS_MESSAGE_SEVERITY_WARNING_BIT_EXT`.
pub const SEVERITY_WARNING: u32 = 0x100;

/// `VK_DEBUG_UTILS_MESSAGE_SEVERITY_ERROR_BIT_EXT`.
pub const SEVERITY_ERROR: u32 = 0x1000;

/// `VK_DEBUG_UTILS_MESSAGE_TYPE_VALIDATION_BIT_EXT`.
pub const TYPE_VALIDATION: u32 = 0x2;

/// `VK_DEBUG_UTILS_MESSAGE_TYPE_PERFORMANCE_BIT_EXT`.
pub const TYPE_PERFORMANCE: u32 = 0x4;

/// `VK_DEBUG_UTILS_MESSAGE_TYPE_DEVICE_ADDRESS_BINDING_BIT_EXT`.
pub const TYPE_DEVICE_ADDRESS_BINDING: u32 = 0x8;

/// The severities the debug messenger is created for.
pub const REPORTED_SEVERITIES: u32 = SEVERITY_ERROR | SEVERITY_WARNING;

/// The message types the debug messenger is created for.
pub const REPORTED_TYPES: u32 = TYPE_DEVICE_ADDRESS_BINDING | TYPE_PERFORMANCE | TYPE_VALIDATION;

/// The label under which a driver message is logged as an error: a message of
/// exactly one reported type, with exactly the error or the warning severity.
/// Every other message is dropped.
pub open spec fn spec_debug_label(message_types: u32, message_severity: u32) -> Option<Seq<char>> {
    if message_severity != SEVERITY_ERROR && message_severity != SEVERITY_WARNING {
        None
    } else if message_types == TYPE_VALIDATION {
        Some("VULKAN VALIDATION"@)
    } else if message_types == TYPE_DEVICE_ADDRESS_BINDING {
        Some("VULKAN DEVICE_ADDRESS_BINDING"@)
    } else if message_types == TYPE_PERFORMANCE {
        Some("VULKAN PERFORMANCE"@)
    } else {
        None
    }
}

/// The label under which the debug messenger's callback logs a driver message as
/// an error, or `None` when it drops the message; see [`spec_debug_label`].
pub fn debug_message_label(message_types: u32, message_severity: u32) -> (r: Option<&'static str>)
    ensures
        r is None <==> spec_debug_label(message_types, message_severity) is None,
        r matches Some(label) ==> spec_debug_label(message_types, message_severity) == Some(label@),
{
    if message_severity != SEVERITY_ERROR && message_severity != SEVERITY_WARNING {
        return None;
    }
    if message_types == TYPE_VALIDATION {
        Some("VULKAN VALIDATION")
    } else if message_types == TYPE_DEVICE_ADDRESS_BINDING {
        Some("VULKAN DEVICE_ADDRESS_BINDING")
    } else if message_types == TYPE_PERFORMANCE {
        Some("VULKAN PERFORMANCE")
    } else {
        None
    }
}

} // verus!
