//! The answers of the chip SDK, as values.

use vstd::prelude::*;

verus! {

/// The most chips that the SDK drives.
pub const CHIP_SDK_CHIP_MAX: usize = 4;

/// The physical ports of one chip.
pub const CHIP_SDK_PHY_PORT_PER_CHIP: usize = 8;

/// The most physical ports in one group.
pub const CHIP_SDK_PHY_PORT_PER_GROUP_MAX: usize = 4;

/// The status that a call into the SDK ends with.
#[allow(non_camel_case_types)]
#[derive(Clone, Copy, Debug, PartialEq, Eq, Structural)]
pub enum ChipSdkError {
    CHIP_SDK_SUCCESS,
    CHIP_SDK_ERROR,
    CHIP_SDK_INVALID_PARAM,
    CHIP_SDK_NO_MEMORY,
    CHIP_SDK_NO_RESOURCE,
    CHIP_SDK_NOT_FOUND,
    CHIP_SDK_NOT_SUPPORTED,
    CHIP_SDK_BUSY,
    CHIP_SDK_TIMEOUT,
    CHIP_SDK_NO_CHANGE,
}

/// Whether a link is up.
#[allow(non_camel_case_types)]
#[derive(Clone, Copy, Debug, PartialEq, Eq, Structural)]
pub enum LinkStatus {
    LINK_DOWN,
    LINK_UP,
}

impl Default for LinkStatus {
    fn default() -> (status: Self)
        ensures
            status == LinkStatus::LINK_DOWN,
    {
        LinkStatus::LINK_DOWN
    }
}

pub type SdkResult = Result<(), ChipSdkError>;

pub type ChipId = i32;

pub type LocalPortId = i32;

/// A physical port: the chip, and the port on that chip.
pub struct PhyPortId(pub ChipId, pub LocalPortId);

impl ChipSdkError {
    /// The status in words.
    pub open spec fn spec_description(&self) -> Seq<char> {
        match self {
            ChipSdkError::CHIP_SDK_SUCCESS => "Success"@,
            ChipSdkError::CHIP_SDK_ERROR => "General error"@,
            ChipSdkError::CHIP_SDK_INVALID_PARAM => "Invalid parameter"@,
            ChipSdkError::CHIP_SDK_NO_MEMORY => "No memory"@,
            ChipSdkError::CHIP_SDK_NO_RESOURCE => "No resource"@,
            ChipSdkError::CHIP_SDK_NOT_FOUND => "Not found"@,
            ChipSdkError::CHIP_SDK_NOT_SUPPORTED => "Not supported"@,
            ChipSdkError::CHIP_SDK_BUSY => "Busy"@,
            ChipSdkError::CHIP_SDK_TIMEOUT => "Timeout"@,
            ChipSdkError::CHIP_SDK_NO_CHANGE => "No change"@,
        }
    }

    pub fn description(&self) -> (text: &'static str)
        ensures
            text@ == self.spec_description(),
    {
        match self {
            ChipSdkError::CHIP_SDK_SUCCESS => "Success",
            ChipSdkError::CHIP_SDK_ERROR => "General error",
            ChipSdkError::CHIP_SDK_INVALID_PARAM => "Invalid parameter",
            ChipSdkError::CHIP_SDK_NO_MEMORY => "No memory",
            ChipSdkError::CHIP_SDK_NO_RESOURCE => "No resource",
            ChipSdkError::CHIP_SDK_NOT_FOUND => "Not found",
            ChipSdkError::CHIP_SDK_NOT_SUPPORTED => "Not supported",
            ChipSdkError::CHIP_SDK_BUSY => "Busy",
            ChipSdkError::CHIP_SDK_TIMEOUT => "Timeout",
            ChipSdkError::CHIP_SDK_NO_CHANGE => "No change",
        }
    }

    /// Success is `Ok`; every other status is the error itself.
    pub fn to_result(self) -> (result: SdkResult)
        ensures
            result == if self == ChipSdkError::CHIP_SDK_SUCCESS {
                Ok::<(), ChipSdkError>(())
            } else {
                Err::<(), ChipSdkError>(self)
            },
    {
        if self == ChipSdkError::CHIP_SDK_SUCCESS {
            Ok(())
        } else {
            Err(self)
        }
    }
}

} // verus!
