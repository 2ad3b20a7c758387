//! What is decided around each call into the driver: whether the caller's
//! arguments may be handed on, in which form the driver takes them, and what
//! the driver's answer means. The calls themselves are made by whoever owns
//! the hardware handle; nothing here touches the device.

use crate::channel::Channel;
use crate::channel_layout::ChannelLayout;
use crate::error::Error;
use crate::format::Format;
use crate::units::{Hertz, MilliSeconds, Sps};
use crate::{I16_PER_SAMPLE, SAMPLES_PER_BUFFER};
use vstd::prelude::*;
use vstd::string::StringSliceAdditionalSpecFns;

verus! {

/// Whether a magnitude fits the driver's 32-bit unsigned integers.
pub open spec fn fits_u32(v: int) -> bool {
    0 <= v <= u32::MAX
}

/// Whether a buffer size is a positive multiple of the buffer granularity.
pub open spec fn is_buffer_multiple(samples_per_buffer: int) -> bool {
    samples_per_buffer > 0 && samples_per_buffer % (SAMPLES_PER_BUFFER as int) == 0
}

/// Narrows a 64-bit magnitude to the driver's 32-bit integers.
fn narrow_u64(v: u64) -> (r: Result<u32, Error>)
    ensures
        fits_u32(v as int) ==> r == Ok::<u32, Error>(v as u32),
        !fits_u32(v as int) ==> r == Err::<u32, Error>(Error::Range),
{
    if v > u32::MAX as u64 {
        Err(Error::Range)
    } else {
        Ok(v as u32)
    }
}

/// Narrows a size to the driver's 32-bit integers.
fn narrow_usize(v: usize) -> (r: Result<u32, Error>)
    ensures
        fits_u32(v as int) ==> r == Ok::<u32, Error>(v as u32),
        !fits_u32(v as int) ==> r == Err::<u32, Error>(Error::Range),
{
    narrow_u64(v as u64)
}

/// Whether a device identifier can be handed to the driver: it must hold no
/// zero byte. The empty identifier stands for the first device found.
pub fn open(device_id: &str) -> (r: Result<(), Error>)
    ensures
        device_id.spec_bytes().contains(0u8) ==> r == Err::<(), Error>(Error::CString),
        !device_id.spec_bytes().contains(0u8) ==> r == Ok::<(), Error>(()),
{
    let bytes = device_id.as_bytes();
    let mut i: usize = 0;
    while i < bytes.len()
        invariant
            i <= bytes@.len(),
            bytes@ == device_id.spec_bytes(),
            forall|j: int| 0 <= j < i ==> bytes@[j] != 0u8,
        decreases bytes@.len() - i,
    {
        if bytes[i] == 0 {
            assert(bytes@[i as int] == 0u8);
            return Err(Error::CString);
        }
        i = i + 1;
    }
    Ok(())
}

/// What the driver's answer to an open call means: its error where it
/// reported one, an invalid-state error where it claimed success and gave no
/// handle, and success otherwise.
pub fn open_result(status: i32, handle_is_null: bool) -> (r: Result<(), Error>)
    ensures
        status != 0 ==> r == Err::<(), Error>(Error::of_status(status)),
        status == 0 && handle_is_null ==> r == Err::<(), Error>(Error::Invalid),
        status == 0 && !handle_is_null ==> r == Ok::<(), Error>(()),
{
    if status != 0 {
        Err(Error::from(status))
    } else if handle_is_null {
        Err(Error::Invalid)
    } else {
        Ok(())
    }
}

/// Whether a handle has to be released when its owner goes out of scope:
/// only one that was opened and not yet closed.
pub fn must_release(handle_is_null: bool) -> (release: bool)
    ensures
        release == !handle_is_null,
{
    !handle_is_null
}

/// The driver's arguments for tuning a channel to a rate or a bandwidth.
#[derive(Debug, Copy, Clone, Eq, PartialEq, Structural)]
pub struct Tune32 {
    pub channel: i32,
    pub value: u32,
}

/// The driver's arguments for tuning a channel to a frequency.
#[derive(Debug, Copy, Clone, Eq, PartialEq, Structural)]
pub struct Tune64 {
    pub channel: i32,
    pub value: u64,
}

/// The arguments for setting a channel's sample rate, or a range error
/// where the rate does not fit the driver's 32 bits.
pub fn set_sample_rate(ch: Channel, sample_rate: Sps) -> (r: Result<Tune32, Error>)
    ensures
        fits_u32(sample_rate.0 as int) ==> r == Ok::<Tune32, Error>(
            (Tune32 { channel: ch.code(), value: sample_rate.0 as u32 }),
        ),
        !fits_u32(sample_rate.0 as int) ==> r == Err::<Tune32, Error>(Error::Range),
{
    match narrow_u64(sample_rate.0) {
        Ok(value) => Ok(Tune32 { channel: ch.into_ffi(), value }),
        Err(e) => Err(e),
    }
}

/// What the driver's answer to setting a sample rate means: its error, or
/// the rate that the hardware settled on.
pub fn set_sample_rate_result(status: i32, actual: u32) -> (r: Result<Sps, Error>)
    ensures
        status != 0 ==> r == Err::<Sps, Error>(Error::of_status(status)),
        status == 0 ==> r == Ok::<Sps, Error>(Sps(actual as u64)),
{
    if status != 0 {
        Err(Error::from(status))
    } else {
        Ok(Sps(actual as u64))
    }
}

/// The arguments for setting a channel's bandwidth, or a range error where
/// the bandwidth does not fit the driver's 32 bits.
pub fn set_bandwidth(ch: Channel, bandwidth: Hertz) -> (r: Result<Tune32, Error>)
    ensures
        fits_u32(bandwidth.0 as int) ==> r == Ok::<Tune32, Error>(
            (Tune32 { channel: ch.code(), value: bandwidth.0 as u32 }),
        ),
        !fits_u32(bandwidth.0 as int) ==> r == Err::<Tune32, Error>(Error::Range),
{
    match narrow_u64(bandwidth.0) {
        Ok(value) => Ok(Tune32 { channel: ch.into_ffi(), value }),
        Err(e) => Err(e),
    }
}

/// What the driver's answer to setting a bandwidth means: its error, or the
/// bandwidth that the hardware settled on.
pub fn set_bandwidth_result(status: i32, actual: u32) -> (r: Result<Hertz, Error>)
    ensures
        status != 0 ==> r == Err::<Hertz, Error>(Error::of_status(status)),
        status == 0 ==> r == Ok::<Hertz, Error>(Hertz(actual as u64)),
{
    if status != 0 {
        Err(Error::from(status))
    } else {
        Ok(Hertz(actual as u64))
    }
}

/// The arguments for setting a channel's frequency, which the driver takes
/// in 64 bits.
pub fn set_frequency(ch: Channel, frequency: Hertz) -> (call: Tune64)
    ensures
        call == (Tune64 { channel: ch.code(), value: frequency.0 }),
{
    Tune64 { channel: ch.into_ffi(), value: frequency.0 }
}

/// The driver's arguments for configuring the synchronous stream.
#[derive(Debug, Copy, Clone, Eq, PartialEq, Structural)]
pub struct SyncConfig {
    pub layout: u32,
    pub format: u32,
    pub num_buffers: u32,
    pub buffer_size: u32,
    pub num_transfers: u32,
    pub stream_timeout: u32,
}

/// The arguments for configuring the synchronous stream. A buffer size
/// that is no positive multiple of 1024 samples is refused first; then any
/// number that does not fit the driver's 32 bits.
pub fn sync_config(
    layout: ChannelLayout,
    format: Format,
    num_buffers: usize,
    samples_per_buffer: usize,
    num_transfers: usize,
    stream_timeout: MilliSeconds,
) -> (r: Result<SyncConfig, Error>)
    ensures
        !is_buffer_multiple(samples_per_buffer as int) ==> r == Err::<SyncConfig, Error>(
            Error::SamplesPerBuffer,
        ),
        is_buffer_multiple(samples_per_buffer as int) && !(fits_u32(num_buffers as int) && fits_u32(
            samples_per_buffer as int,
        ) && fits_u32(num_transfers as int) && fits_u32(stream_timeout.0 as int)) ==> r == Err::<
            SyncConfig,
            Error,
        >(Error::Range),
        is_buffer_multiple(samples_per_buffer as int) && fits_u32(num_buffers as int) && fits_u32(
            samples_per_buffer as int,
        ) && fits_u32(num_transfers as int) && fits_u32(stream_timeout.0 as int) ==> r == Ok::<
            SyncConfig,
            Error,
        >(
            (SyncConfig {
                layout: layout.code(),
                format: format.code(),
                num_buffers: num_buffers as u32,
                buffer_size: samples_per_buffer as u32,
                num_transfers: num_transfers as u32,
                stream_timeout: stream_timeout.0 as u32,
            }),
        ),
{
    if samples_per_buffer == 0 || samples_per_buffer % SAMPLES_PER_BUFFER != 0 {
        return Err(Error::SamplesPerBuffer);
    }
    let num_buffers = match narrow_usize(num_buffers) {
        Ok(v) => v,
        Err(e) => {
            return Err(e);
        },
    };
    let buffer_size = match narrow_usize(samples_per_buffer) {
        Ok(v) => v,
        Err(e) => {
            return Err(e);
        },
    };
    let num_transfers = match narrow_usize(num_transfers) {
        Ok(v) => v,
        Err(e) => {
            return Err(e);
        },
    };
    let stream_timeout = match narrow_u64(stream_timeout.0) {
        Ok(v) => v,
        Err(e) => {
            return Err(e);
        },
    };
    Ok(
        SyncConfig {
            layout: layout.into_ffi(),
            format: format.into_ffi(),
            num_buffers,
            buffer_size,
            num_transfers,
            stream_timeout,
        },
    )
}

/// The driver's arguments for switching a channel's stream on or off.
#[derive(Debug, Copy, Clone, Eq, PartialEq, Structural)]
pub struct EnableModule {
    pub channel: i32,
    pub enable: bool,
}

/// The arguments for switching a channel's stream on or off.
pub fn enable_module(ch: Channel, enable: bool) -> (call: EnableModule)
    ensures
        call == (EnableModule { channel: ch.code(), enable }),
{
    EnableModule { channel: ch.into_ffi(), enable }
}

/// The driver's arguments for one blocking receive.
#[derive(Debug, Copy, Clone, Eq, PartialEq, Structural)]
pub struct SyncRx {
    /// Complex samples to receive: half the number of 16-bit words.
    pub num_samples: u32,
    /// Whether a metadata record is handed to the driver to fill.
    pub with_metadata: bool,
    pub timeout_ms: u32,
}

/// The arguments for one blocking receive into `samples`. A buffer that
/// does not hold whole complex samples, two words each, is refused first;
/// then a sample count or a timeout that does not fit the driver's 32 bits.
pub fn sync_rx(samples: &[i16], with_metadata: bool, timeout: MilliSeconds) -> (r: Result<
    SyncRx,
    Error,
>)
    ensures
        samples@.len() % 2 != 0 ==> r == Err::<SyncRx, Error>(Error::SamplesLen),
        samples@.len() % 2 == 0 && !(fits_u32(samples@.len() as int / 2) && fits_u32(
            timeout.0 as int,
        )) ==> r == Err::<SyncRx, Error>(Error::Range),
        samples@.len() % 2 == 0 && fits_u32(samples@.len() as int / 2) && fits_u32(timeout.0 as int)
            ==> r == Ok::<SyncRx, Error>(
            (SyncRx {
                num_samples: (samples@.len() / 2) as u32,
                with_metadata,
                timeout_ms: timeout.0 as u32,
            }),
        ),
{
    let len = samples.len();
    if len % I16_PER_SAMPLE != 0 {
        return Err(Error::SamplesLen);
    }
    let num_samples = match narrow_usize(len / 2) {
        Ok(v) => v,
        Err(e) => {
            return Err(e);
        },
    };
    let timeout_ms = match narrow_u64(timeout.0) {
        Ok(v) => v,
        Err(e) => {
            return Err(e);
        },
    };
    Ok(SyncRx { num_samples, with_metadata, timeout_ms })
}

/// How fast the device's bus link is.
#[derive(Debug, Copy, Clone, Eq, PartialEq, Hash, Structural)]
pub enum DeviceSpeed {
    Unknown,
    High,
    Super,
}

impl DeviceSpeed {
    pub open spec fn name_spec(self) -> Seq<char> {
        match self {
            DeviceSpeed::Unknown => "Unknown"@,
            DeviceSpeed::High => "High"@,
            DeviceSpeed::Super => "Super"@,
        }
    }

    /// The speed's name as it is shown to a user.
    pub fn name(self) -> (text: &'static str)
        ensures
            text@ == self.name_spec(),
    {
        match self {
            DeviceSpeed::Unknown => "Unknown",
            DeviceSpeed::High => "High",
            DeviceSpeed::Super => "Super",
        }
    }
}

} // verus!
