//! The wire encoding of a complex sample.

use crate::ffi;
use vstd::prelude::*;

verus! {

/// Interleaved 16-bit signed I and Q words in Q11 fixed point, with or
/// without a metadata header in each buffer.
#[derive(Debug, Copy, Clone, Eq, PartialEq, Ord, PartialOrd, Hash, Structural)]
pub enum Format {
    Sc16Q11,
    Sc16Q11Meta,
}

impl Format {
    pub open spec fn code(self) -> u32 {
        match self {
            Format::Sc16Q11 => ffi::BLADERF_FORMAT_SC16_Q11,
            Format::Sc16Q11Meta => ffi::BLADERF_FORMAT_SC16_Q11_META,
        }
    }

    pub fn into_ffi(self) -> (code: u32)
        ensures
            code == self.code(),
    {
        match self {
            Format::Sc16Q11 => ffi::BLADERF_FORMAT_SC16_Q11,
            Format::Sc16Q11Meta => ffi::BLADERF_FORMAT_SC16_Q11_META,
        }
    }

    /// The format's description as it is shown to a user.
    pub fn name(self) -> (text: &'static str)
        ensures
            text@ == self.name_spec(),
    {
        match self {
            Format::Sc16Q11 => "Signed, Complex 16-bit Q11",
            Format::Sc16Q11Meta => "Signed, Complex 16-bit Q11, with Metadata",
        }
    }

    pub open spec fn name_spec(self) -> Seq<char> {
        match self {
            Format::Sc16Q11 => "Signed, Complex 16-bit Q11"@,
            Format::Sc16Q11Meta => "Signed, Complex 16-bit Q11, with Metadata"@,
        }
    }
}

} // verus!
