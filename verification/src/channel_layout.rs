//! How many channels of one direction stream at once.

use crate::ffi;
use vstd::prelude::*;

verus! {

/// One channel (SISO) or two (MIMO), for receive or for transmit.
#[derive(Debug, Copy, Clone, Eq, PartialEq, Ord, PartialOrd, Hash, Structural)]
pub enum ChannelLayout {
    RxX1,
    TxX1,
    RxX2,
    TxX2,
}

impl ChannelLayout {
    pub open spec fn code(self) -> u32 {
        match self {
            ChannelLayout::RxX1 => ffi::BLADERF_RX_X1,
            ChannelLayout::TxX1 => ffi::BLADERF_TX_X1,
            ChannelLayout::RxX2 => ffi::BLADERF_RX_X2,
            ChannelLayout::TxX2 => ffi::BLADERF_TX_X2,
        }
    }

    pub fn into_ffi(self) -> (code: u32)
        ensures
            code == self.code(),
    {
        match self {
            ChannelLayout::RxX1 => ffi::BLADERF_RX_X1,
            ChannelLayout::TxX1 => ffi::BLADERF_TX_X1,
            ChannelLayout::RxX2 => ffi::BLADERF_RX_X2,
            ChannelLayout::TxX2 => ffi::BLADERF_TX_X2,
        }
    }

    /// The layout's description as it is shown to a user.
    pub fn name(self) -> (text: &'static str)
        ensures
            text@ == self.name_spec(),
    {
        match self {
            ChannelLayout::RxX1 => "x1 RX (SISO)",
            ChannelLayout::TxX1 => "x1 TX (SISO)",
            ChannelLayout::RxX2 => "x2 RX (MIMO)",
            ChannelLayout::TxX2 => "x2 TX (MIMO)",
        }
    }

    pub open spec fn name_spec(self) -> Seq<char> {
        match self {
            ChannelLayout::RxX1 => "x1 RX (SISO)"@,
            ChannelLayout::TxX1 => "x1 TX (SISO)"@,
            ChannelLayout::RxX2 => "x2 RX (MIMO)"@,
            ChannelLayout::TxX2 => "x2 TX (MIMO)"@,
        }
    }
}

} // verus!
