//! What can go wrong while the device is set up.
use vstd::prelude::*;
use vstd::string::*;

verus! {

/// Why setting up the device failed. Reads cannot fail, so there is no
/// error for them.
#[derive(Clone, Copy, Debug, PartialEq, Eq, Structural)]
pub enum InitError {
    /// The host refused the request for a device-number range.
    RegionAllocation,
    /// The host refused to make the device descriptor live.
    DeviceAdd,
}

/// Status that the load entry point reports on success.
pub const LOAD_OK: i32 = 0;

/// Status that the load entry point reports on failure.
pub const LOAD_FAILED: i32 = -1;

impl InitError {
    /// The diagnostic line for this error, as a reader of the log sees it.
    pub open spec fn diagnostic(self) -> &'static str {
        match self {
            InitError::DeviceAdd => "Failed to add char dev",
            InitError::RegionAllocation => "Failed to allocate char device region",
        }
    }

    /// The diagnostic line in the form the logging sink takes: the text,
    /// closed by a NUL.
    pub fn message(&self) -> (text: &'static str)
        ensures
            text@ == self.diagnostic()@.push('\0'),
    {
        proof {
            reveal_strlit("Failed to add char dev");
            reveal_strlit("Failed to add char dev\0");
            reveal_strlit("Failed to allocate char device region");
            reveal_strlit("Failed to allocate char device region\0");
        }
        match self {
            InitError::DeviceAdd => {
                let text = "Failed to add char dev\0";
                assert(text@ =~= "Failed to add char dev"@.push('\0'));
                text
            },
            InitError::RegionAllocation => {
                let text = "Failed to allocate char device region\0";
                assert(text@ =~= "Failed to allocate char device region"@.push('\0'));
                text
            },
        }
    }
}

} // verus!
