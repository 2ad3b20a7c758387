//! The RF front ends of the device.

use vstd::prelude::*;

verus! {

/// One RF front end: receive or transmit, primary or secondary.
#[derive(Debug, Copy, Clone, Eq, PartialEq, Ord, PartialOrd, Hash, Structural)]
pub enum Channel {
    Rx0,
    Rx1,
    Tx0,
    Tx1,
}

impl Channel {
    /// The driver's code of the channel: the front end's index in the bits
    /// above the lowest, and the direction in the lowest bit, which is set
    /// for transmit.
    pub open spec fn code(self) -> i32 {
        match self {
            Channel::Rx0 => 0i32,
            Channel::Rx1 => 2i32,
            Channel::Tx0 => 1i32,
            Channel::Tx1 => 3i32,
        }
    }

    pub open spec fn is_tx(self) -> bool {
        self == Channel::Tx0 || self == Channel::Tx1
    }

    pub open spec fn index(self) -> int {
        if self == Channel::Rx1 || self == Channel::Tx1 {
            1
        } else {
            0
        }
    }

    pub fn into_ffi(self) -> (code: i32)
        ensures
            code == self.code(),
            code == 2 * self.index() + if self.is_tx() { 1int } else { 0int },
    {
        match self {
            Channel::Rx0 => 0b00,
            Channel::Rx1 => 0b10,
            Channel::Tx0 => 0b01,
            Channel::Tx1 => 0b11,
        }
    }

    /// The channel's name as it is shown to a user.
    pub fn name(self) -> (text: &'static str)
        ensures
            text@ == self.name_spec(),
    {
        match self {
            Channel::Rx0 => "Rx0",
            Channel::Rx1 => "Rx1",
            Channel::Tx0 => "Tx0",
            Channel::Tx1 => "Tx1",
        }
    }

    pub open spec fn name_spec(self) -> Seq<char> {
        match self {
            Channel::Rx0 => "Rx0"@,
            Channel::Rx1 => "Rx1"@,
            Channel::Tx0 => "Tx0"@,
            Channel::Tx1 => "Tx1"@,
        }
    }
}

} // verus!
