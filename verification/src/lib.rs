//! Verified core of a typed control and streaming interface to a bladeRF
//! software-defined radio: unit values and their textual grammar, channel,
//! layout and sample-format descriptors, the per-transfer metadata record,
//! the error taxonomy, and the validation of every argument that is handed to
//! the driver.
//!
//! The caller is expected to drive a device in this order, which the driver
//! itself enforces: open, then the `set_*` calls in any order, then
//! `sync_config`, `enable_module(true)`, any number of transfers,
//! `enable_module(false)`, and close.

pub mod channel;
pub mod channel_layout;
pub mod device;
pub mod device_info;
pub mod device_limits;
pub mod error;
pub mod ffi;
pub mod format;
pub mod metadata;
pub mod text;
pub mod units;

pub use channel::Channel;
pub use channel_layout::ChannelLayout;
pub use device_info::DeviceInfo;
pub use error::Error;
pub use format::Format;
pub use metadata::{MetaFlags, MetaStatus, Metadata};
pub use units::{Hertz, KiloHertz, MegaHertz, MilliSeconds, Sps, UnitExt};

use vstd::prelude::*;

verus! {

pub type Frequency = Hertz;

pub type Bandwidth = Hertz;

pub type SampleRate = Sps;

/// Granularity of a stream buffer, in samples.
pub const SAMPLES_PER_BUFFER: usize = 1024;

/// Number of 16-bit words that make up one complex sample.
pub const I16_PER_SAMPLE: usize = 2;

} // verus!
