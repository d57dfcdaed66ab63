use vstd::prelude::*;

verus! {

/// The status codes this backend hands back to its callers.
#[derive(Clone, Copy, Debug, PartialEq, Eq, Structural)]
pub enum VkResult {
    Success,
    Incomplete,
    ErrorExtensionNotPresent,
    ErrorFormatNotSupported,
}

pub const SUCCESS_CODE: i32 = 0;

pub const INCOMPLETE_CODE: i32 = 5;

pub const ERROR_EXTENSION_NOT_PRESENT_CODE: i32 = -7;

pub const ERROR_FORMAT_NOT_SUPPORTED_CODE: i32 = -11;

impl VkResult {
    pub open spec fn spec_code(self) -> i32 {
        match self {
            VkResult::Success => SUCCESS_CODE,
            VkResult::Incomplete => INCOMPLETE_CODE,
            VkResult::ErrorExtensionNotPresent => ERROR_EXTENSION_NOT_PRESENT_CODE,
            VkResult::ErrorFormatNotSupported => ERROR_FORMAT_NOT_SUPPORTED_CODE,
        }
    }

    /// The numeric code of the status, as the binary interface spells it.
    pub fn code(self) -> (r: i32)
        ensures
            r == self.spec_code(),
    {
        match self {
            VkResult::Success => SUCCESS_CODE,
            VkResult::Incomplete => INCOMPLETE_CODE,
            VkResult::ErrorExtensionNotPresent => ERROR_EXTENSION_NOT_PRESENT_CODE,
            VkResult::ErrorFormatNotSupported => ERROR_FORMAT_NOT_SUPPORTED_CODE,
        }
    }
}

} // verus!
