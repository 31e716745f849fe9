//! Outcomes of native calls: the closed set of result codes the native layer
//! reports, and the error type every fallible operation of this crate returns.

use vstd::prelude::*;
use vstd::string::StringExecFns;
use crate::text::{decimal, decimal_text};

verus! {

/// A result code of the native layer.
///
/// The native header declares the codes in this order, starting at zero, so
/// the number of a code is its position in the list.
#[derive(Clone, Copy, Debug, PartialEq, Eq, Hash, Structural)]
pub enum ErrorCode {
    Success,
    Failure,
    NoGpuCompatible,
    NotEnoughGpuMemory,
    CameraNotDetected,
    SensorsNotInitialized,
    SensorsNotAvailable,
    InvalidResolution,
    LowUsbBandwidth,
    CalibrationFileNotAvailable,
    InvalidCalibrationFile,
    InvalidSvoFile,
    SvoRecordingError,
    SvoUnsupportedCompression,
    EndOfSvofileReached,
    InvalidCoordinateSystem,
    InvalidFirmware,
    InvalidFunctionParameters,
    CudaError,
    CameraNotInitialized,
    NvidiaDriverOutOfDate,
    InvalidFunctionCall,
    CorruptedSdkInstallation,
    IncompatibleSdkVersion,
    InvalidAreaFile,
    IncompatibleAreaFile,
    CameraFailedToSetup,
    CameraDetectionIssue,
    CannotStartCameraStream,
    NoGpuDetected,
    PlaneNotFound,
    ModuleNotCompatibleWithCamera,
    MotionSensorsRequired,
    ModuleNotCompatibleWithCudaVersion,
}

/// How many result codes the native layer defines.
pub const ERROR_CODE_COUNT: u32 = 34;

impl ErrorCode {
    /// The number the native layer uses for this code.
    pub open spec fn spec_code(self) -> u32 {
        match self {
            ErrorCode::Success => 0,
            ErrorCode::Failure => 1,
            ErrorCode::NoGpuCompatible => 2,
            ErrorCode::NotEnoughGpuMemory => 3,
            ErrorCode::CameraNotDetected => 4,
            ErrorCode::SensorsNotInitialized => 5,
            ErrorCode::SensorsNotAvailable => 6,
            ErrorCode::InvalidResolution => 7,
            ErrorCode::LowUsbBandwidth => 8,
            ErrorCode::CalibrationFileNotAvailable => 9,
            ErrorCode::InvalidCalibrationFile => 10,
            ErrorCode::InvalidSvoFile => 11,
            ErrorCode::SvoRecordingError => 12,
            ErrorCode::SvoUnsupportedCompression => 13,
            ErrorCode::EndOfSvofileReached => 14,
            ErrorCode::InvalidCoordinateSystem => 15,
            ErrorCode::InvalidFirmware => 16,
            ErrorCode::InvalidFunctionParameters => 17,
            ErrorCode::CudaError => 18,
            ErrorCode::CameraNotInitialized => 19,
            ErrorCode::NvidiaDriverOutOfDate => 20,
            ErrorCode::InvalidFunctionCall => 21,
            ErrorCode::CorruptedSdkInstallation => 22,
            ErrorCode::IncompatibleSdkVersion => 23,
            ErrorCode::InvalidAreaFile => 24,
            ErrorCode::IncompatibleAreaFile => 25,
            ErrorCode::CameraFailedToSetup => 26,
            ErrorCode::CameraDetectionIssue => 27,
            ErrorCode::CannotStartCameraStream => 28,
            ErrorCode::NoGpuDetected => 29,
            ErrorCode::PlaneNotFound => 30,
            ErrorCode::ModuleNotCompatibleWithCamera => 31,
            ErrorCode::MotionSensorsRequired => 32,
            ErrorCode::ModuleNotCompatibleWithCudaVersion => 33,
        }
    }

    /// The code that the native layer numbers `code`, if there is one.
    pub open spec fn spec_from_code(code: u32) -> Option<ErrorCode> {
        if code == 0 {
            Some(ErrorCode::Success)
        } else if code == 1 {
            Some(ErrorCode::Failure)
        } else if code == 2 {
            Some(ErrorCode::NoGpuCompatible)
        } else if code == 3 {
            Some(ErrorCode::NotEnoughGpuMemory)
        } else if code == 4 {
            Some(ErrorCode::CameraNotDetected)
        } else if code == 5 {
            Some(ErrorCode::SensorsNotInitialized)
        } else if code == 6 {
            Some(ErrorCode::SensorsNotAvailable)
        } else if code == 7 {
            Some(ErrorCode::InvalidResolution)
        } else if code == 8 {
            Some(ErrorCode::LowUsbBandwidth)
        } else if code == 9 {
            Some(ErrorCode::CalibrationFileNotAvailable)
        } else if code == 10 {
            Some(ErrorCode::InvalidCalibrationFile)
        } else if code == 11 {
            Some(ErrorCode::InvalidSvoFile)
        } else if code == 12 {
            Some(ErrorCode::SvoRecordingError)
        } else if code == 13 {
            Some(ErrorCode::SvoUnsupportedCompression)
        } else if code == 14 {
            Some(ErrorCode::EndOfSvofileReached)
        } else if code == 15 {
            Some(ErrorCode::InvalidCoordinateSystem)
        } else if code == 16 {
            Some(ErrorCode::InvalidFirmware)
        } else if code == 17 {
            Some(ErrorCode::InvalidFunctionParameters)
        } else if code == 18 {
            Some(ErrorCode::CudaError)
        } else if code == 19 {
            Some(ErrorCode::CameraNotInitialized)
        } else if code == 20 {
            Some(ErrorCode::NvidiaDriverOutOfDate)
        } else if code == 21 {
            Some(ErrorCode::InvalidFunctionCall)
        } else if code == 22 {
            Some(ErrorCode::CorruptedSdkInstallation)
        } else if code == 23 {
            Some(ErrorCode::IncompatibleSdkVersion)
        } else if code == 24 {
            Some(ErrorCode::InvalidAreaFile)
        } else if code == 25 {
            Some(ErrorCode::IncompatibleAreaFile)
        } else if code == 26 {
            Some(ErrorCode::CameraFailedToSetup)
        } else if code == 27 {
            Some(ErrorCode::CameraDetectionIssue)
        } else if code == 28 {
            Some(ErrorCode::CannotStartCameraStream)
        } else if code == 29 {
            Some(ErrorCode::NoGpuDetected)
        } else if code == 30 {
            Some(ErrorCode::PlaneNotFound)
        } else if code == 31 {
            Some(ErrorCode::ModuleNotCompatibleWithCamera)
        } else if code == 32 {
            Some(ErrorCode::MotionSensorsRequired)
        } else if code == 33 {
            Some(ErrorCode::ModuleNotCompatibleWithCudaVersion)
        } else {
            None
        }
    }

    /// The upper-case name under which the native documentation lists this code.
    pub open spec fn spec_name(self) -> Seq<char> {
        match self {
            ErrorCode::Success => "SUCCESS"@,
            ErrorCode::Failure => "FAILURE"@,
            ErrorCode::NoGpuCompatible => "NO_GPU_COMPATIBLE"@,
            ErrorCode::NotEnoughGpuMemory => "NOT_ENOUGH_GPU_MEMORY"@,
            ErrorCode::CameraNotDetected => "CAMERA_NOT_DETECTED"@,
            ErrorCode::SensorsNotInitialized => "SENSORS_NOT_INITIALIZED"@,
            ErrorCode::SensorsNotAvailable => "SENSORS_NOT_AVAILABLE"@,
            ErrorCode::InvalidResolution => "INVALID_RESOLUTION"@,
            ErrorCode::LowUsbBandwidth => "LOW_USB_BANDWIDTH"@,
            ErrorCode::CalibrationFileNotAvailable => "CALIBRATION_FILE_NOT_AVAILABLE"@,
            ErrorCode::InvalidCalibrationFile => "INVALID_CALIBRATION_FILE"@,
            ErrorCode::InvalidSvoFile => "INVALID_SVO_FILE"@,
            ErrorCode::SvoRecordingError => "SVO_RECORDING_ERROR"@,
            ErrorCode::SvoUnsupportedCompression => "SVO_UNSUPPORTED_COMPRESSION"@,
            ErrorCode::EndOfSvofileReached => "END_OF_SVOFILE_REACHED"@,
            ErrorCode::InvalidCoordinateSystem => "INVALID_COORDINATE_SYSTEM"@,
            ErrorCode::InvalidFirmware => "INVALID_FIRMWARE"@,
            ErrorCode::InvalidFunctionParameters => "INVALID_FUNCTION_PARAMETERS"@,
            ErrorCode::CudaError => "CUDA_ERROR"@,
            ErrorCode::CameraNotInitialized => "CAMERA_NOT_INITIALIZED"@,
            ErrorCode::NvidiaDriverOutOfDate => "NVIDIA_DRIVER_OUT_OF_DATE"@,
            ErrorCode::InvalidFunctionCall => "INVALID_FUNCTION_CALL"@,
            ErrorCode::CorruptedSdkInstallation => "CORRUPTED_SDK_INSTALLATION"@,
            ErrorCode::IncompatibleSdkVersion => "INCOMPATIBLE_SDK_VERSION"@,
            ErrorCode::InvalidAreaFile => "INVALID_AREA_FILE"@,
            ErrorCode::IncompatibleAreaFile => "INCOMPATIBLE_AREA_FILE"@,
            ErrorCode::CameraFailedToSetup => "CAMERA_FAILED_TO_SETUP"@,
            ErrorCode::CameraDetectionIssue => "CAMERA_DETECTION_ISSUE"@,
            ErrorCode::CannotStartCameraStream => "CANNOT_START_CAMERA_STREAM"@,
            ErrorCode::NoGpuDetected => "NO_GPU_DETECTED"@,
            ErrorCode::PlaneNotFound => "PLANE_NOT_FOUND"@,
            ErrorCode::ModuleNotCompatibleWithCamera => "MODULE_NOT_COMPATIBLE_WITH_CAMERA"@,
            ErrorCode::MotionSensorsRequired => "MOTION_SENSORS_REQUIRED"@,
            ErrorCode::ModuleNotCompatibleWithCudaVersion => "MODULE_NOT_COMPATIBLE_WITH_CUDA_VERSION"@,
        }
    }

    /// The number the native layer uses for this code.
    #[verifier::when_used_as_spec(spec_code)]
    pub fn code(self) -> (r: u32)
        ensures
            r == self.spec_code(),
            r < ERROR_CODE_COUNT,
            ErrorCode::spec_from_code(r) == Some(self),
    {
        match self {
            ErrorCode::Success => 0,
            ErrorCode::Failure => 1,
            ErrorCode::NoGpuCompatible => 2,
            ErrorCode::NotEnoughGpuMemory => 3,
            ErrorCode::CameraNotDetected => 4,
            ErrorCode::SensorsNotInitialized => 5,
            ErrorCode::SensorsNotAvailable => 6,
            ErrorCode::InvalidResolution => 7,
            ErrorCode::LowUsbBandwidth => 8,
            ErrorCode::CalibrationFileNotAvailable => 9,
            ErrorCode::InvalidCalibrationFile => 10,
            ErrorCode::InvalidSvoFile => 11,
            ErrorCode::SvoRecordingError => 12,
            ErrorCode::SvoUnsupportedCompression => 13,
            ErrorCode::EndOfSvofileReached => 14,
            ErrorCode::InvalidCoordinateSystem => 15,
            ErrorCode::InvalidFirmware => 16,
            ErrorCode::InvalidFunctionParameters => 17,
            ErrorCode::CudaError => 18,
            ErrorCode::CameraNotInitialized => 19,
            ErrorCode::NvidiaDriverOutOfDate => 20,
            ErrorCode::InvalidFunctionCall => 21,
            ErrorCode::CorruptedSdkInstallation => 22,
            ErrorCode::IncompatibleSdkVersion => 23,
            ErrorCode::InvalidAreaFile => 24,
            ErrorCode::IncompatibleAreaFile => 25,
            ErrorCode::CameraFailedToSetup => 26,
            ErrorCode::CameraDetectionIssue => 27,
            ErrorCode::CannotStartCameraStream => 28,
            ErrorCode::NoGpuDetected => 29,
            ErrorCode::PlaneNotFound => 30,
            ErrorCode::ModuleNotCompatibleWithCamera => 31,
            ErrorCode::MotionSensorsRequired => 32,
            ErrorCode::ModuleNotCompatibleWithCudaVersion => 33,
        }
    }

    /// Decodes a native result code. Every number below [`ERROR_CODE_COUNT`]
    /// names exactly one code; every other number names none.
    #[verifier::when_used_as_spec(spec_from_code)]
    pub fn from_code(code: u32) -> (r: Option<ErrorCode>)
        ensures
            r == ErrorCode::spec_from_code(code),
            r is Some <==> code < ERROR_CODE_COUNT,
            r matches Some(kind) ==> kind.spec_code() == code,
    {
        match code {
            0 => Some(ErrorCode::Success),
            1 => Some(ErrorCode::Failure),
            2 => Some(ErrorCode::NoGpuCompatible),
            3 => Some(ErrorCode::NotEnoughGpuMemory),
            4 => Some(ErrorCode::CameraNotDetected),
            5 => Some(ErrorCode::SensorsNotInitialized),
            6 => Some(ErrorCode::SensorsNotAvailable),
            7 => Some(ErrorCode::InvalidResolution),
            8 => Some(ErrorCode::LowUsbBandwidth),
            9 => Some(ErrorCode::CalibrationFileNotAvailable),
            10 => Some(ErrorCode::InvalidCalibrationFile),
            11 => Some(ErrorCode::InvalidSvoFile),
            12 => Some(ErrorCode::SvoRecordingError),
            13 => Some(ErrorCode::SvoUnsupportedCompression),
            14 => Some(ErrorCode::EndOfSvofileReached),
            15 => Some(ErrorCode::InvalidCoordinateSystem),
            16 => Some(ErrorCode::InvalidFirmware),
            17 => Some(ErrorCode::InvalidFunctionParameters),
            18 => Some(ErrorCode::CudaError),
            19 => Some(ErrorCode::CameraNotInitialized),
            20 => Some(ErrorCode::NvidiaDriverOutOfDate),
            21 => Some(ErrorCode::InvalidFunctionCall),
            22 => Some(ErrorCode::CorruptedSdkInstallation),
            23 => Some(ErrorCode::IncompatibleSdkVersion),
            24 => Some(ErrorCode::InvalidAreaFile),
            25 => Some(ErrorCode::IncompatibleAreaFile),
            26 => Some(ErrorCode::CameraFailedToSetup),
            27 => Some(ErrorCode::CameraDetectionIssue),
            28 => Some(ErrorCode::CannotStartCameraStream),
            29 => Some(ErrorCode::NoGpuDetected),
            30 => Some(ErrorCode::PlaneNotFound),
            31 => Some(ErrorCode::ModuleNotCompatibleWithCamera),
            32 => Some(ErrorCode::MotionSensorsRequired),
            33 => Some(ErrorCode::ModuleNotCompatibleWithCudaVersion),
            _ => None,
        }
    }

    /// The upper-case name under which the native documentation lists this code.
    pub fn name(self) -> (r: &'static str)
        ensures
            r@ == self.spec_name(),
    {
        match self {
            ErrorCode::Success => "SUCCESS",
            ErrorCode::Failure => "FAILURE",
            ErrorCode::NoGpuCompatible => "NO_GPU_COMPATIBLE",
            ErrorCode::NotEnoughGpuMemory => "NOT_ENOUGH_GPU_MEMORY",
            ErrorCode::CameraNotDetected => "CAMERA_NOT_DETECTED",
            ErrorCode::SensorsNotInitialized => "SENSORS_NOT_INITIALIZED",
            ErrorCode::SensorsNotAvailable => "SENSORS_NOT_AVAILABLE",
            ErrorCode::InvalidResolution => "INVALID_RESOLUTION",
            ErrorCode::LowUsbBandwidth => "LOW_USB_BANDWIDTH",
            ErrorCode::CalibrationFileNotAvailable => "CALIBRATION_FILE_NOT_AVAILABLE",
            ErrorCode::InvalidCalibrationFile => "INVALID_CALIBRATION_FILE",
            ErrorCode::InvalidSvoFile => "INVALID_SVO_FILE",
            ErrorCode::SvoRecordingError => "SVO_RECORDING_ERROR",
            ErrorCode::SvoUnsupportedCompression => "SVO_UNSUPPORTED_COMPRESSION",
            ErrorCode::EndOfSvofileReached => "END_OF_SVOFILE_REACHED",
            ErrorCode::InvalidCoordinateSystem => "INVALID_COORDINATE_SYSTEM",
            ErrorCode::InvalidFirmware => "INVALID_FIRMWARE",
            ErrorCode::InvalidFunctionParameters => "INVALID_FUNCTION_PARAMETERS",
            ErrorCode::CudaError => "CUDA_ERROR",
            ErrorCode::CameraNotInitialized => "CAMERA_NOT_INITIALIZED",
            ErrorCode::NvidiaDriverOutOfDate => "NVIDIA_DRIVER_OUT_OF_DATE",
            ErrorCode::InvalidFunctionCall => "INVALID_FUNCTION_CALL",
            ErrorCode::CorruptedSdkInstallation => "CORRUPTED_SDK_INSTALLATION",
            ErrorCode::IncompatibleSdkVersion => "INCOMPATIBLE_SDK_VERSION",
            ErrorCode::InvalidAreaFile => "INVALID_AREA_FILE",
            ErrorCode::IncompatibleAreaFile => "INCOMPATIBLE_AREA_FILE",
            ErrorCode::CameraFailedToSetup => "CAMERA_FAILED_TO_SETUP",
            ErrorCode::CameraDetectionIssue => "CAMERA_DETECTION_ISSUE",
            ErrorCode::CannotStartCameraStream => "CANNOT_START_CAMERA_STREAM",
            ErrorCode::NoGpuDetected => "NO_GPU_DETECTED",
            ErrorCode::PlaneNotFound => "PLANE_NOT_FOUND",
            ErrorCode::ModuleNotCompatibleWithCamera => "MODULE_NOT_COMPATIBLE_WITH_CAMERA",
            ErrorCode::MotionSensorsRequired => "MOTION_SENSORS_REQUIRED",
            ErrorCode::ModuleNotCompatibleWithCudaVersion => "MODULE_NOT_COMPATIBLE_WITH_CUDA_VERSION",
        }
    }
}

/// Why an operation of this crate failed.
#[derive(Clone, Debug, PartialEq, Eq, Hash)]
pub enum Error {
    /// The native layer reported this code.
    Code(ErrorCode),
    /// The request was refused on the host side, or the native layer answered
    /// with a number that is no result code; the text says which.
    Desc(String),
}

/// The text of the error for a native reply that is no result code.
pub open spec fn unknown_code_text(code: u32) -> Seq<char> {
    "unknown native result code "@ + decimal(code as nat)
}

/// What a native result code means for the operation that received it:
/// success for the success code, the code itself for every other known code,
/// and a described error for a number that is no code at all.
pub open spec fn code_outcome(code: u32, r: Result<(), Error>) -> bool {
    match r {
        Ok(()) => code == ErrorCode::Success.spec_code(),
        Err(Error::Code(kind)) => kind != ErrorCode::Success && kind.spec_code() == code,
        Err(Error::Desc(text)) => code >= ERROR_CODE_COUNT && text@ == unknown_code_text(code),
    }
}

/// Whether `e` is the error that the failing native reply `code` maps to.
pub open spec fn is_error_of_code(e: Error, code: u32) -> bool {
    code_outcome(code, Err(e))
}

impl Error {
    /// The text of the line that reports this error.
    pub open spec fn spec_message(self) -> Seq<char> {
        match self {
            Error::Code(kind) => "ZED error: "@ + kind.spec_name(),
            Error::Desc(text) => text@,
        }
    }

    /// The line that reports this error: the native code's name behind a
    /// fixed prefix, or the description as it is.
    pub fn message(&self) -> (r: String)
        ensures
            r@ == self.spec_message(),
    {
        match self {
            Error::Code(kind) => String::from_str("ZED error: ").concat(kind.name()),
            Error::Desc(text) => text.clone(),
        }
    }

    /// The native code this error carries, if it came from the native layer.
    pub fn native_code(&self) -> (r: Option<ErrorCode>)
        ensures
            r == (match *self {
                Error::Code(kind) => Some(kind),
                Error::Desc(_) => None::<ErrorCode>,
            }),
    {
        match self {
            Error::Code(kind) => Some(*kind),
            Error::Desc(_) => None,
        }
    }
}

/// The result code that a native reply stands for. The native layer answers
/// with a C integer; its bits, read as an unsigned number, are the code.
pub open spec fn reply_code(reply: i32) -> u32 {
    #[verifier::truncate]
    (reply as u32)
}

/// Reads a native reply as a result code. A reply that is not negative is the
/// code itself; a negative reply is a number far above every result code.
pub fn code_of_reply(reply: i32) -> (r: u32)
    ensures
        r == reply_code(reply),
        reply >= 0 ==> r == reply,
        reply < 0 ==> r > i32::MAX,
{
    assert(reply < 0i32 ==> (reply as u32) > 0x7fff_ffffu32) by (bit_vector);
    #[verifier::truncate]
    (reply as u32)
}

/// Maps a native reply to the outcome of the operation that received it.
pub fn reply_to_result(reply: i32) -> (r: Result<(), Error>)
    ensures
        code_outcome(reply_code(reply), r),
        r is Ok <==> reply == 0,
        r matches Err(Error::Code(_)) <==> 0 < reply < ERROR_CODE_COUNT,
        r matches Err(Error::Desc(_)) <==> (reply < 0 || reply >= ERROR_CODE_COUNT),
{
    code_to_result(code_of_reply(reply))
}

/// Maps a native result code to the outcome of the operation that received it.
pub fn code_to_result(code: u32) -> (r: Result<(), Error>)
    ensures
        code_outcome(code, r),
        r is Ok <==> code == 0,
        r matches Err(Error::Code(_)) <==> 0 < code < ERROR_CODE_COUNT,
        r matches Err(Error::Desc(_)) <==> code >= ERROR_CODE_COUNT,
{
    match ErrorCode::from_code(code) {
        Some(ErrorCode::Success) => Ok(()),
        Some(kind) => Err(Error::Code(kind)),
        None => {
            let text = String::from_str("unknown native result code ").concat(
                decimal_text(code as u128).as_str(),
            );
            Err(Error::Desc(text))
        },
    }
}

/// Every number is mapped, and to one outcome only: two outcomes of the same
/// code are both successes, or carry the same native code, or carry the same
/// description.
pub proof fn lemma_code_mapping_total(code: u32, a: Result<(), Error>, b: Result<(), Error>)
    requires
        code_outcome(code, a),
        code_outcome(code, b),
    ensures
        a is Ok <==> b is Ok,
        a matches Err(Error::Code(x)) ==> b matches Err(Error::Code(y)) && x == y,
        a matches Err(Error::Desc(x)) ==> b matches Err(Error::Desc(y)) && x@ == y@,
{
}

/// A failure code decodes to the kind whose number it is, and that kind maps
/// back to the same number.
pub proof fn lemma_failure_code_round_trip(kind: ErrorCode)
    ensures
        ErrorCode::spec_from_code(kind.spec_code()) == Some(kind),
        kind != ErrorCode::Success ==> code_outcome(kind.spec_code(), Err(Error::Code(kind))),
{
}

} // verus!
