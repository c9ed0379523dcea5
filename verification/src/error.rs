//! Error taxonomy of the native driver.
//!
//! The driver reports every outcome as a signed integer: a non-negative value
//! is a success (often a length), a negative value is one of a closed set of
//! status codes.  This module translates those codes into a closed error
//! enumeration and fixes the convention once for every wrapped call.

use vstd::prelude::*;

verus! {

/// Status code for an input/output failure.
pub const NFC_EIO: i32 = -1;
/// Status code for an invalid argument.
pub const NFC_EINVARG: i32 = -2;
/// Status code for an operation the device does not support.
pub const NFC_EDEVNOTSUPP: i32 = -3;
/// Status code for a device that does not exist.
pub const NFC_ENOTSUCHDEV: i32 = -4;
/// Status code for a buffer overflow.
pub const NFC_EOVFLOW: i32 = -5;
/// Status code for a timed-out operation.
pub const NFC_ETIMEOUT: i32 = -6;
/// Status code for an operation aborted by the user.
pub const NFC_EOPABORTED: i32 = -7;
/// Status code for an unimplemented operation.
pub const NFC_ENOTIMPL: i32 = -8;
/// Status code for a released target.
pub const NFC_ETGRELEASED: i32 = -10;
/// Status code for an error during RF transmission.
pub const NFC_ERFTRANS: i32 = -20;
/// Status code for a failed MIFARE Classic authentication.
pub const NFC_EMFCAUTHFAIL: i32 = -30;
/// Status code for a software error.
pub const NFC_ESOFT: i32 = -80;
/// Status code for a device-internal chip error.
pub const NFC_ECHIP: i32 = -90;

/// Closed error taxonomy for every operation of this library.
///
/// The first four variants originate in this layer itself; the rest mirror
/// the native driver's status codes one for one.  A negative status outside
/// the known set is preserved in `Undefined`.
#[derive(Debug, PartialEq, Eq, Structural, Clone, Copy)]
pub enum Error {
    /// A required allocation failed.
    Malloc,
    /// A negative driver status outside the known set, carried verbatim.
    Undefined(i32),
    /// A wire target carried a modulation tag outside the known set.
    UndefinedModulationType,
    /// No reader answered an open or selection request.
    NoDeviceFound,
    /// Input/output error; the device may need re-opening.
    Io,
    /// Invalid argument(s).
    InvalidArgument,
    /// Operation not supported by the device.
    DeviceNotSupported,
    /// No such device.
    NoSuchDeviceFound,
    /// Buffer overflow, reported by the driver or caught before any call.
    BufferOverflow,
    /// Operation timed out.
    Timeout,
    /// Operation aborted by the user.
    OperationAborted,
    /// Operation not (yet) implemented.
    NotImplemented,
    /// Target released.
    TargetReleased,
    /// Error during RF transmission.
    RfTransmissionError,
    /// MIFARE Classic authentication failed.
    MifareAuthFailed,
    /// Software error (allocation, file or pipe creation and the like).
    Soft,
    /// Device-internal chip error.
    Chip,
}

/// The error that a driver status code denotes.
pub open spec fn error_of_code(code: int) -> Error {
    if code == NFC_EIO {
        Error::Io
    } else if code == NFC_EINVARG {
        Error::InvalidArgument
    } else if code == NFC_EDEVNOTSUPP {
        Error::DeviceNotSupported
    } else if code == NFC_ENOTSUCHDEV {
        Error::NoSuchDeviceFound
    } else if code == NFC_EOVFLOW {
        Error::BufferOverflow
    } else if code == NFC_ETIMEOUT {
        Error::Timeout
    } else if code == NFC_EOPABORTED {
        Error::OperationAborted
    } else if code == NFC_ENOTIMPL {
        Error::NotImplemented
    } else if code == NFC_ETGRELEASED {
        Error::TargetReleased
    } else if code == NFC_ERFTRANS {
        Error::RfTransmissionError
    } else if code == NFC_EMFCAUTHFAIL {
        Error::MifareAuthFailed
    } else if code == NFC_ESOFT {
        Error::Soft
    } else if code == NFC_ECHIP {
        Error::Chip
    } else {
        Error::Undefined(code as i32)
    }
}

impl Error {
    /// Translates a driver status code into the closed taxonomy.
    pub fn from_code(code: i32) -> (r: Error)
        ensures
            r == error_of_code(code as int),
    {
        match code {
            NFC_EIO => Error::Io,
            NFC_EINVARG => Error::InvalidArgument,
            NFC_EDEVNOTSUPP => Error::DeviceNotSupported,
            NFC_ENOTSUCHDEV => Error::NoSuchDeviceFound,
            NFC_EOVFLOW => Error::BufferOverflow,
            NFC_ETIMEOUT => Error::Timeout,
            NFC_EOPABORTED => Error::OperationAborted,
            NFC_ENOTIMPL => Error::NotImplemented,
            NFC_ETGRELEASED => Error::TargetReleased,
            NFC_ERFTRANS => Error::RfTransmissionError,
            NFC_EMFCAUTHFAIL => Error::MifareAuthFailed,
            NFC_ESOFT => Error::Soft,
            NFC_ECHIP => Error::Chip,
            _ => Error::Undefined(code),
        }
    }

    /// A human-readable description of the error, for logging.
    pub fn message(&self) -> (r: &'static str)
        ensures
            r@ == self.message_spec(),
    {
        match self {
            Error::Malloc => "Memory allocation error",
            Error::Undefined(_) => "Unknown libnfc error",
            Error::UndefinedModulationType => "Undefined modulation type",
            Error::NoDeviceFound => "No device found",
            Error::Io => "Input/output error, device may not be usable anymore without re-opening it",
            Error::InvalidArgument => "Invalid argument(s)",
            Error::DeviceNotSupported => "Operation not supported by device",
            Error::NoSuchDeviceFound => "No such device found",
            Error::BufferOverflow => "Buffer overflow",
            Error::Timeout => "Operation timed out",
            Error::OperationAborted => "Operation aborted (by user)",
            Error::NotImplemented => "Not (yet) implemented",
            Error::TargetReleased => "Target released",
            Error::RfTransmissionError => "Error during RF transmission",
            Error::MifareAuthFailed => "MIFARE Classic: authentication failed",
            Error::Soft => "Software error (allocation, file/pipe creation, etc.)",
            Error::Chip => "Device internal chip error",
        }
    }

    /// The text that `message` returns for each variant.
    pub open spec fn message_spec(self) -> Seq<char> {
        match self {
            Error::Malloc => "Memory allocation error"@,
            Error::Undefined(_) => "Unknown libnfc error"@,
            Error::UndefinedModulationType => "Undefined modulation type"@,
            Error::NoDeviceFound => "No device found"@,
            Error::Io => "Input/output error, device may not be usable anymore without re-opening it"@,
            Error::InvalidArgument => "Invalid argument(s)"@,
            Error::DeviceNotSupported => "Operation not supported by device"@,
            Error::NoSuchDeviceFound => "No such device found"@,
            Error::BufferOverflow => "Buffer overflow"@,
            Error::Timeout => "Operation timed out"@,
            Error::OperationAborted => "Operation aborted (by user)"@,
            Error::NotImplemented => "Not (yet) implemented"@,
            Error::TargetReleased => "Target released"@,
            Error::RfTransmissionError => "Error during RF transmission"@,
            Error::MifareAuthFailed => "MIFARE Classic: authentication failed"@,
            Error::Soft => "Software error (allocation, file/pipe creation, etc.)"@,
            Error::Chip => "Device internal chip error"@,
        }
    }
}

/// Reads the status a device reports for its last operation: a negative
/// status carries the error it denotes, any other status means the last
/// operation succeeded and there is no error to report.
pub fn last_error_from_status(status: i32) -> (r: Option<Error>)
    ensures
        status >= 0 ==> r is None,
        status < 0 ==> r == Some(error_of_code(status as int)),
{
    if status >= 0 {
        None
    } else {
        Some(Error::from_code(status))
    }
}

/// Checks a driver status code whose payload is not needed.
///
/// A negative code maps to its error; any other code is a success.
pub fn wrap_err(res: i32) -> (r: Result<(), Error>)
    ensures
        res < 0 ==> r == Result::<(), Error>::Err(error_of_code(res as int)),
        res >= 0 ==> r == Result::<(), Error>::Ok(()),
{
    if res < 0 {
        Err(Error::from_code(res))
    } else {
        Ok(())
    }
}

/// Checks a driver status code that carries a length on success.
///
/// A negative code maps to its error; any other code is returned as the
/// length it denotes.
pub fn wrap_err_usize(res: i32) -> (r: Result<usize, Error>)
    ensures
        res < 0 ==> r == Result::<usize, Error>::Err(error_of_code(res as int)),
        res >= 0 ==> r == Result::<usize, Error>::Ok(res as usize),
{
    if res < 0 {
        Err(Error::from_code(res))
    } else {
        Ok(res as usize)
    }
}

} // verus!
