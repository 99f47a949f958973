//! Is a block device the one behind a directory?

use vstd::prelude::*;

verus! {

/// Why a device and a directory do not qualify for changing project quotas.
#[derive(Clone, Copy, Debug, PartialEq, Eq, Structural, Hash)]
pub enum QualificationError {
    /// The device is no block device.
    NotBlockSpecial,
    /// The directory is on another device.
    OtherDevice,
}

impl QualificationError {
    /// What is wrong, in words.
    pub fn message(self) -> (r: &'static str)
        ensures
            r@ == (match self {
                QualificationError::NotBlockSpecial =>
                    "project-quota device must be block-special"@,
                QualificationError::OtherDevice =>
                    "project-quota device does not back the qualification directory"@,
            }),
    {
        match self {
            QualificationError::NotBlockSpecial => "project-quota device must be block-special",
            QualificationError::OtherDevice =>
                "project-quota device does not back the qualification directory",
        }
    }
}

/// Check that a device is a block device, and that it is the one that a directory is on.
///
/// `device_rdev` is the device that the device's file stands for, and `directory_dev` the
/// device that holds the directory.
pub fn validate_qualification_target_metadata(
    device_is_block_device: bool,
    device_rdev: u64,
    directory_dev: u64,
) -> (r: Result<(), QualificationError>)
    ensures
        r == (if !device_is_block_device {
            Err::<(), QualificationError>(QualificationError::NotBlockSpecial)
        } else if device_rdev != directory_dev {
            Err::<(), QualificationError>(QualificationError::OtherDevice)
        } else {
            Ok::<(), QualificationError>(())
        }),
{
    if !device_is_block_device {
        return Err(QualificationError::NotBlockSpecial);
    }
    if device_rdev != directory_dev {
        return Err(QualificationError::OtherDevice);
    }
    Ok(())
}

} // verus!
