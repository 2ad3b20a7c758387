//! The closed error taxonomy, and the mapping of driver status codes into it.

use crate::ffi;
use crate::text::{signed_decimal_digits, signed_decimal_text};
use vstd::prelude::*;

verus! {

#[non_exhaustive]
#[derive(Debug, Copy, Clone, Eq, PartialEq, Ord, PartialOrd, Hash, Structural)]
pub enum Error {
    /// Text that is not valid, from the device or in an identifier.
    CString,
    /// A buffer size that is no positive multiple of the buffer granularity.
    SamplesPerBuffer,
    /// A sample buffer that does not hold whole complex samples.
    SamplesLen,
    Unexpected,
    /// A magnitude that does not fit the driver's integer width, or a
    /// parameter the driver found out of range.
    Range,
    Invalid,
    Memory,
    Io,
    Timeout,
    NoDevice,
    Unsupported,
    QueueFull,
    WouldBlock,
    DeviceNotInit,
    /// A status code outside the named set, kept as the driver gave it.
    Other(i32),
}

impl Error {
    /// The error class that a driver status code stands for. Codes outside
    /// the named set, zero among them, are kept verbatim.
    pub open spec fn of_status(code: i32) -> Error {
        if code == ffi::BLADERF_ERR_UNEXPECTED {
            Error::Unexpected
        } else if code == ffi::BLADERF_ERR_RANGE {
            Error::Range
        } else if code == ffi::BLADERF_ERR_INVAL {
            Error::Invalid
        } else if code == ffi::BLADERF_ERR_MEM {
            Error::Memory
        } else if code == ffi::BLADERF_ERR_IO {
            Error::Io
        } else if code == ffi::BLADERF_ERR_TIMEOUT {
            Error::Timeout
        } else if code == ffi::BLADERF_ERR_NODEV {
            Error::NoDevice
        } else if code == ffi::BLADERF_ERR_UNSUPPORTED {
            Error::Unsupported
        } else if code == ffi::BLADERF_ERR_QUEUE_FULL {
            Error::QueueFull
        } else if code == ffi::BLADERF_ERR_WOULD_BLOCK {
            Error::WouldBlock
        } else if code == ffi::BLADERF_ERR_NOT_INIT {
            Error::DeviceNotInit
        } else {
            Error::Other(code)
        }
    }

    /// Whether a call that failed with this error may simply be tried
    /// again: a timeout, a full queue, or an operation that would block.
    pub fn is_retryable(&self) -> (retry: bool)
        ensures
            retry == (*self == Error::Timeout || *self == Error::QueueFull || *self
                == Error::WouldBlock),
    {
        match self {
            Error::Timeout | Error::QueueFull | Error::WouldBlock => true,
            _ => false,
        }
    }

    /// Turns the status that a driver call returned into a result: zero is
    /// success, anything else the error class of that code.
    pub fn check(status: i32) -> (r: Result<(), Error>)
        ensures
            r == Error::status_result(status),
    {
        if status == 0 {
            Ok(())
        } else {
            Err(Error::from(status))
        }
    }

    /// How an error is shown: the name of its class, and for a status code
    /// outside the named set the code in brackets after `Other`.
    pub open spec fn text(self) -> Seq<char> {
        match self {
            Error::CString => "CString"@,
            Error::SamplesPerBuffer => "SamplesPerBuffer"@,
            Error::SamplesLen => "SamplesLen"@,
            Error::Unexpected => "Unexpected"@,
            Error::Range => "Range"@,
            Error::Invalid => "Invalid"@,
            Error::Memory => "Memory"@,
            Error::Io => "Io"@,
            Error::Timeout => "Timeout"@,
            Error::NoDevice => "NoDevice"@,
            Error::Unsupported => "Unsupported"@,
            Error::QueueFull => "QueueFull"@,
            Error::WouldBlock => "WouldBlock"@,
            Error::DeviceNotInit => "DeviceNotInit"@,
            Error::Other(code) => "Other("@ + signed_decimal_digits(code as int) + ")"@,
        }
    }

    /// The error as it is shown to a user.
    pub fn to_string(&self) -> (text: String)
        ensures
            text@ == self.text(),
    {
        match self {
            Error::CString => "CString".to_owned(),
            Error::SamplesPerBuffer => "SamplesPerBuffer".to_owned(),
            Error::SamplesLen => "SamplesLen".to_owned(),
            Error::Unexpected => "Unexpected".to_owned(),
            Error::Range => "Range".to_owned(),
            Error::Invalid => "Invalid".to_owned(),
            Error::Memory => "Memory".to_owned(),
            Error::Io => "Io".to_owned(),
            Error::Timeout => "Timeout".to_owned(),
            Error::NoDevice => "NoDevice".to_owned(),
            Error::Unsupported => "Unsupported".to_owned(),
            Error::QueueFull => "QueueFull".to_owned(),
            Error::WouldBlock => "WouldBlock".to_owned(),
            Error::DeviceNotInit => "DeviceNotInit".to_owned(),
            Error::Other(code) => {
                let mut text = "Other(".to_owned();
                text.append(signed_decimal_text(*code).as_str());
                text.append(")");
                text
            },
        }
    }

    pub open spec fn status_result(status: i32) -> Result<(), Error> {
        if status == 0 {
            Ok(())
        } else {
            Err(Error::of_status(status))
        }
    }
}

impl From<i32> for Error {
    fn from(c_err: i32) -> (e: Error)
        ensures
            e == Error::of_status(c_err),
    {
        match c_err {
            ffi::BLADERF_ERR_UNEXPECTED => Error::Unexpected,
            ffi::BLADERF_ERR_RANGE => Error::Range,
            ffi::BLADERF_ERR_INVAL => Error::Invalid,
            ffi::BLADERF_ERR_MEM => Error::Memory,
            ffi::BLADERF_ERR_IO => Error::Io,
            ffi::BLADERF_ERR_TIMEOUT => Error::Timeout,
            ffi::BLADERF_ERR_NODEV => Error::NoDevice,
            ffi::BLADERF_ERR_UNSUPPORTED => Error::Unsupported,
            ffi::BLADERF_ERR_QUEUE_FULL => Error::QueueFull,
            ffi::BLADERF_ERR_WOULD_BLOCK => Error::WouldBlock,
            ffi::BLADERF_ERR_NOT_INIT => Error::DeviceNotInit,
            _ => Error::Other(c_err),
        }
    }
}

impl vstd::std_specs::convert::FromSpecImpl<i32> for Error {
    open spec fn obeys_from_spec() -> bool {
        true
    }

    open spec fn from_spec(v: i32) -> Error {
        Error::of_status(v)
    }
}

} // verus!
