//! Tuning limits of the bladeRF 2.0 micro xA4, as magnitudes in the base
//! unit: Hertz for frequency and bandwidth, samples per second for the
//! sample rate.

use vstd::prelude::*;

verus! {

pub const FREQUENCY_MIN: u64 = 70_000_000;

pub const FREQUENCY_MAX: u64 = 6_000_000_000;

pub const BANDWIDTH_MIN: u64 = 200_000;

pub const BANDWIDTH_MAX: u64 = 56_000_000;

pub const SAMPLE_RATE_MIN: u64 = 1;

pub const SAMPLE_RATE_MAX: u64 = 61_440_000;

} // verus!
