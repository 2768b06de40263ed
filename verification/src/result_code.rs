use vstd::prelude::*;

verus! {

/// Result code of an operation that succeeded.
pub const RESULT_OK: i32 = 0;

/// Answer "yes" of a probe; shares its value with `RESULT_OK`.
pub const RESULT_YES: i32 = 0;

/// Answer "no" of a probe: not an error, and distinct from every error code.
pub const RESULT_NO: i32 = -256;

pub const ERROR_DEVICE_NOT_FOUND: i32 = -1;

pub const ERROR_FORMAT_NOT_FOUND: i32 = -2;

pub const ERROR_OPENING_DEVICE: i32 = -3;

pub const ERROR_SESSION_ALREADY_STARTED: i32 = -4;

pub const ERROR_SESSION_NOT_STARTED: i32 = -5;

pub const ERROR_STATE_NOT_INITIALIZED: i32 = -6;

pub const ERROR_READING_CAMERA_SESSION: i32 = -7;

pub const ERROR_READING_FRAME: i32 = -8;

pub const ERROR_DECODING_FRAME: i32 = -9;

pub const ERROR_BUFFER_NULL: i32 = -10;

pub const ERROR_BUFFER_NOT_ENOUGH_CAPACITY: i32 = -11;

pub const ERROR_UNKNOWN: i32 = -512;

/// Authorization status: capture is permitted.
pub const STATUS_AUTHORIZED: i32 = 0;

/// Authorization status: capture is not permitted.
pub const STATUS_DENIED: i32 = -1;

/// The ways in which an operation on the registry or on a frame can fail.
#[derive(Clone, Copy, Debug, PartialEq, Eq, Structural)]
pub enum CaptureError {
    DeviceNotFound,
    FormatNotFound,
    OpeningDeviceFailed,
    SessionAlreadyStarted,
    SessionNotStarted,
    StateNotInitialized,
    ReadingCameraSessionFailed,
    ReadingFrameFailed,
    DecodingFrameFailed,
    BufferNull,
    BufferTooSmall,
    Unknown,
}

impl CaptureError {
    /// The integer that stands for this error at the process boundary.
    pub open spec fn spec_code(self) -> i32 {
        match self {
            CaptureError::DeviceNotFound => ERROR_DEVICE_NOT_FOUND,
            CaptureError::FormatNotFound => ERROR_FORMAT_NOT_FOUND,
            CaptureError::OpeningDeviceFailed => ERROR_OPENING_DEVICE,
            CaptureError::SessionAlreadyStarted => ERROR_SESSION_ALREADY_STARTED,
            CaptureError::SessionNotStarted => ERROR_SESSION_NOT_STARTED,
            CaptureError::StateNotInitialized => ERROR_STATE_NOT_INITIALIZED,
            CaptureError::ReadingCameraSessionFailed => ERROR_READING_CAMERA_SESSION,
            CaptureError::ReadingFrameFailed => ERROR_READING_FRAME,
            CaptureError::DecodingFrameFailed => ERROR_DECODING_FRAME,
            CaptureError::BufferNull => ERROR_BUFFER_NULL,
            CaptureError::BufferTooSmall => ERROR_BUFFER_NOT_ENOUGH_CAPACITY,
            CaptureError::Unknown => ERROR_UNKNOWN,
        }
    }

    /// The integer that stands for this error at the process boundary.
    #[verifier::when_used_as_spec(spec_code)]
    pub fn code(self) -> (c: i32)
        ensures
            c == self.spec_code(),
            c < 0,
    {
        match self {
            CaptureError::DeviceNotFound => ERROR_DEVICE_NOT_FOUND,
            CaptureError::FormatNotFound => ERROR_FORMAT_NOT_FOUND,
            CaptureError::OpeningDeviceFailed => ERROR_OPENING_DEVICE,
            CaptureError::SessionAlreadyStarted => ERROR_SESSION_ALREADY_STARTED,
            CaptureError::SessionNotStarted => ERROR_SESSION_NOT_STARTED,
            CaptureError::StateNotInitialized => ERROR_STATE_NOT_INITIALIZED,
            CaptureError::ReadingCameraSessionFailed => ERROR_READING_CAMERA_SESSION,
            CaptureError::ReadingFrameFailed => ERROR_READING_FRAME,
            CaptureError::DecodingFrameFailed => ERROR_DECODING_FRAME,
            CaptureError::BufferNull => ERROR_BUFFER_NULL,
            CaptureError::BufferTooSmall => ERROR_BUFFER_NOT_ENOUGH_CAPACITY,
            CaptureError::Unknown => ERROR_UNKNOWN,
        }
    }
}

/// Distinct errors have distinct codes, and no error code equals `RESULT_NO`
/// or a success code.
pub proof fn error_codes_are_distinct(a: CaptureError, b: CaptureError)
    ensures
        a.spec_code() == b.spec_code() ==> a == b,
        a.spec_code() != RESULT_NO,
        a.spec_code() != RESULT_OK,
{
}

} // verus!
