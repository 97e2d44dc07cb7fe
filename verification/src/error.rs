//! Error taxonomy and the status translator that wraps every gateway call.

use vstd::prelude::*;

verus! {

/// In-band sentinel meaning "invalid data" in certain telemetry fields.
pub const INVALID_DATA_VALUE: u32 = 0x7ffd;

/// In-band sentinel meaning "read error" in certain telemetry fields.
pub const READ_ERROR_VALUE: u32 = 0x7fff;

/// Every failure an operation of this crate can report.
#[derive(Debug, Clone, PartialEq, Eq, Structural)]
pub enum DCMIError {
    /// The gateway returned a non-zero status; carries the raw code verbatim.
    NativeCallFailed { code: i32 },
    /// A precondition checked before calling the gateway did not hold
    /// (for example the reserved virtual-chip ID).
    InvalidParameter,
    /// The queried entity does not exist: the health query reported the
    /// documented "device not found" raw value, which is reachable only by
    /// handing a stale ID to an unchecked constructor.
    DeviceNotExist,
    /// A telemetry field held the documented "invalid data" sentinel
    /// instead of real data.
    InvalidData,
    /// A telemetry field held the documented "read error" sentinel
    /// instead of real data.
    ReadError,
    /// A fixed-size text buffer had no terminator, or the bytes before the
    /// terminator were not valid text, or a raw value had no documented
    /// decoding.
    DecodeFailure,
}

/// Result of every fallible operation of this crate.
pub type DCMIResult<T> = Result<T, DCMIError>;

/// Translates the raw integer status of a gateway call into a typed outcome.
///
/// The translation is total: zero is success and every non-zero status is
/// surfaced as a native-call failure carrying the raw code.
pub fn dcmi_try(code: i32) -> (r: DCMIResult<()>)
    ensures
        code == 0 ==> r == Ok::<(), DCMIError>(()),
        code != 0 ==> r == Err::<(), DCMIError>((DCMIError::NativeCallFailed { code })),
{
    if code == 0 {
        Ok(())
    } else {
        Err(DCMIError::NativeCallFailed { code })
    }
}

/// Checks an unsigned telemetry field against the two documented in-band
/// data sentinels before it is returned as real data.
pub fn check_value_u32(value: u32) -> (r: DCMIResult<u32>)
    ensures
        value == INVALID_DATA_VALUE ==> r == Err::<u32, DCMIError>(DCMIError::InvalidData),
        value == READ_ERROR_VALUE ==> r == Err::<u32, DCMIError>(DCMIError::ReadError),
        value != INVALID_DATA_VALUE && value != READ_ERROR_VALUE ==> r == Ok::<u32, DCMIError>(
            value,
        ),
{
    if value == INVALID_DATA_VALUE {
        Err(DCMIError::InvalidData)
    } else if value == READ_ERROR_VALUE {
        Err(DCMIError::ReadError)
    } else {
        Ok(value)
    }
}

/// Checks a signed telemetry field against the two documented in-band data
/// sentinels before it is returned as real data.
pub fn check_value_i32(value: i32) -> (r: DCMIResult<i32>)
    ensures
        value == 0x7ffd ==> r == Err::<i32, DCMIError>(DCMIError::InvalidData),
        value == 0x7fff ==> r == Err::<i32, DCMIError>(DCMIError::ReadError),
        value != 0x7ffd && value != 0x7fff ==> r == Ok::<i32, DCMIError>(value),
{
    if value == 0x7ffd {
        Err(DCMIError::InvalidData)
    } else if value == 0x7fff {
        Err(DCMIError::ReadError)
    } else {
        Ok(value)
    }
}

} // verus!
