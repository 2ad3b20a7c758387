//! The record that accompanies every streaming transfer, and the named bits
//! of its flag and status words.

use crate::ffi;
use crate::text::{decimal_digits, decimal_text, hex_digits, hex_text};
use vstd::prelude::*;

verus! {

/// Whether bit `bit` of `word` is set.
pub open spec fn bit_is_set(word: u32, bit: u32) -> bool
    recommends
        bit < 32,
{
    word & (1u32 << bit) != 0
}

/// `word` with bit `bit` set to `value` and every other bit as it was.
pub open spec fn with_bit(word: u32, bit: u32, value: bool) -> u32
    recommends
        bit < 32,
{
    if value {
        word | (1u32 << bit)
    } else {
        word & !(1u32 << bit)
    }
}

/// Writing one bit makes that bit read back as written and leaves every
/// other bit as it was.
pub proof fn lemma_with_bit(word: u32, bit: u32, value: bool, other: u32)
    requires
        bit < 32,
        other < 32,
    ensures
        bit_is_set(with_bit(word, bit, value), bit) == value,
        other != bit ==> bit_is_set(with_bit(word, bit, value), other) == bit_is_set(word, other),
{
    assert((word | (1u32 << bit)) & (1u32 << bit) != 0) by (bit_vector)
        requires
            bit < 32,
    ;
    assert((word & !(1u32 << bit)) & (1u32 << bit) == 0) by (bit_vector)
        requires
            bit < 32,
    ;
    assert(other != bit ==> (word | (1u32 << bit)) & (1u32 << other) == word & (1u32 << other))
        by (bit_vector)
        requires
            bit < 32,
            other < 32,
    ;
    assert(other != bit ==> (word & !(1u32 << bit)) & (1u32 << other) == word & (1u32 << other))
        by (bit_vector)
        requires
            bit < 32,
            other < 32,
    ;
}

/// A word with exactly bit `bit` set is the zero word with that bit written.
pub proof fn lemma_single_bit(bit: u32)
    requires
        bit < 32,
    ensures
        with_bit(0, bit, true) == 1u32 << bit,
        forall|other: u32| other < 32 ==> (#[trigger] bit_is_set(1u32 << bit, other) <==> other == bit),
{
    assert(0u32 | (1u32 << bit) == 1u32 << bit) by (bit_vector);
    assert forall|other: u32| other < 32 implies (#[trigger] bit_is_set(1u32 << bit, other) <==> other
        == bit) by {
        assert(((1u32 << bit) & (1u32 << other) != 0) <==> other == bit) by (bit_vector)
            requires
                bit < 32,
                other < 32,
        ;
    }
}

fn get_bit(word: u32, bit: u32) -> (set: bool)
    requires
        bit < 32,
    ensures
        set == bit_is_set(word, bit),
{
    word & (1u32 << bit) != 0
}

fn put_bit(word: u32, bit: u32, value: bool) -> (out: u32)
    requires
        bit < 32,
    ensures
        out == with_bit(word, bit, value),
{
    if value {
        word | (1u32 << bit)
    } else {
        word & !(1u32 << bit)
    }
}

/// How a flags or status word is shown: upper-case hexadecimal after `0x`.
pub open spec fn word_text(word: u32) -> Seq<char> {
    "0x"@ + hex_digits(word as nat)
}

fn word_to_string(word: u32) -> (text: String)
    ensures
        text@ == word_text(word),
{
    let mut text = "0x".to_owned();
    text.append(hex_text(word).as_str());
    text
}

/// The flags word of a transfer. Before a transmit the caller sets the
/// burst and timing bits; after a receive the hardware bits can be read.
#[derive(Debug, Copy, Clone, Eq, PartialEq, Ord, PartialOrd, Hash, Structural)]
pub struct MetaFlags(pub u32);

pub const TX_BURST_START_BIT: u32 = 0;

pub const TX_BURST_END_BIT: u32 = 1;

pub const TX_NOW_BIT: u32 = 2;

pub const TX_UPDATE_TIMESTAMP_BIT: u32 = 3;

pub const RX_HW_UNDERFLOW_BIT: u32 = 0;

pub const RX_HW_MINIEXP1_BIT: u32 = 16;

pub const RX_HW_MINIEXP2_BIT: u32 = 17;

/// Position of the "receive now, ignore the timestamp" bit.
pub const RX_NOW_BIT: u32 = 31;

/// Each mask of the driver is the single bit at the position that the
/// accessor of the same name reads or writes.
pub proof fn lemma_masks_are_single_bits()
    ensures
        ffi::BLADERF_META_FLAG_TX_BURST_START == 1u32 << TX_BURST_START_BIT,
        ffi::BLADERF_META_FLAG_TX_BURST_END == 1u32 << TX_BURST_END_BIT,
        ffi::BLADERF_META_FLAG_TX_NOW == 1u32 << TX_NOW_BIT,
        ffi::BLADERF_META_FLAG_TX_UPDATE_TIMESTAMP == 1u32 << TX_UPDATE_TIMESTAMP_BIT,
        ffi::BLADERF_META_FLAG_RX_HW_UNDERFLOW == 1u32 << RX_HW_UNDERFLOW_BIT,
        ffi::BLADERF_META_FLAG_RX_HW_MINIEXP1 == 1u32 << RX_HW_MINIEXP1_BIT,
        ffi::BLADERF_META_FLAG_RX_HW_MINIEXP2 == 1u32 << RX_HW_MINIEXP2_BIT,
        ffi::BLADERF_META_FLAG_RX_NOW == 1u32 << RX_NOW_BIT,
        ffi::BLADERF_META_STATUS_OVERRUN == 1u32 << OVERRUN_BIT,
        ffi::BLADERF_META_STATUS_UNDERRUN == 1u32 << UNDERRUN_BIT,
{
    assert(0x1u32 == 1u32 << 0u32) by (bit_vector);
    assert(0x2u32 == 1u32 << 1u32) by (bit_vector);
    assert(0x4u32 == 1u32 << 2u32) by (bit_vector);
    assert(0x8u32 == 1u32 << 3u32) by (bit_vector);
    assert(0x1_0000u32 == 1u32 << 16u32) by (bit_vector);
    assert(0x2_0000u32 == 1u32 << 17u32) by (bit_vector);
    assert(0x8000_0000u32 == 1u32 << 31u32) by (bit_vector);
}

impl MetaFlags {
    pub fn tx_burst_start(&self) -> (set: bool)
        ensures
            set == bit_is_set(self.0, TX_BURST_START_BIT),
    {
        get_bit(self.0, TX_BURST_START_BIT)
    }

    pub fn set_tx_burst_start(&mut self, value: bool)
        ensures
            final(self).0 == with_bit(old(self).0, TX_BURST_START_BIT, value),
    {
        self.0 = put_bit(self.0, TX_BURST_START_BIT, value);
    }

    pub fn tx_burst_end(&self) -> (set: bool)
        ensures
            set == bit_is_set(self.0, TX_BURST_END_BIT),
    {
        get_bit(self.0, TX_BURST_END_BIT)
    }

    pub fn set_tx_burst_end(&mut self, value: bool)
        ensures
            final(self).0 == with_bit(old(self).0, TX_BURST_END_BIT, value),
    {
        self.0 = put_bit(self.0, TX_BURST_END_BIT, value);
    }

    pub fn tx_now(&self) -> (set: bool)
        ensures
            set == bit_is_set(self.0, TX_NOW_BIT),
    {
        get_bit(self.0, TX_NOW_BIT)
    }

    pub fn set_tx_now(&mut self, value: bool)
        ensures
            final(self).0 == with_bit(old(self).0, TX_NOW_BIT, value),
    {
        self.0 = put_bit(self.0, TX_NOW_BIT, value);
    }

    pub fn tx_update_timestamp(&self) -> (set: bool)
        ensures
            set == bit_is_set(self.0, TX_UPDATE_TIMESTAMP_BIT),
    {
        get_bit(self.0, TX_UPDATE_TIMESTAMP_BIT)
    }

    pub fn set_tx_update_timestamp(&mut self, value: bool)
        ensures
            final(self).0 == with_bit(old(self).0, TX_UPDATE_TIMESTAMP_BIT, value),
    {
        self.0 = put_bit(self.0, TX_UPDATE_TIMESTAMP_BIT, value);
    }

    pub fn rx_hw_underflow(&self) -> (set: bool)
        ensures
            set == bit_is_set(self.0, RX_HW_UNDERFLOW_BIT),
    {
        get_bit(self.0, RX_HW_UNDERFLOW_BIT)
    }

    pub fn rx_hw_miniexp1(&self) -> (set: bool)
        ensures
            set == bit_is_set(self.0, RX_HW_MINIEXP1_BIT),
    {
        get_bit(self.0, RX_HW_MINIEXP1_BIT)
    }

    pub fn rx_hw_miniexp2(&self) -> (set: bool)
        ensures
            set == bit_is_set(self.0, RX_HW_MINIEXP2_BIT),
    {
        get_bit(self.0, RX_HW_MINIEXP2_BIT)
    }

    pub fn rx_now(&self) -> (set: bool)
        ensures
            set == bit_is_set(self.0, RX_NOW_BIT),
    {
        get_bit(self.0, RX_NOW_BIT)
    }

    pub fn set_rx_now(&mut self, value: bool)
        ensures
            final(self).0 == with_bit(old(self).0, RX_NOW_BIT, value),
    {
        self.0 = put_bit(self.0, RX_NOW_BIT, value);
    }

    /// Zeroes the whole word, whatever it held.
    pub fn clear(&mut self)
        ensures
            final(self).0 == 0,
    {
        self.0 = 0;
    }

    /// The word in upper-case hexadecimal, after `0x`.
    pub fn to_string(&self) -> (text: String)
        ensures
            text@ == word_text(self.0),
    {
        word_to_string(self.0)
    }
}

impl Default for MetaFlags {
    fn default() -> (flags: MetaFlags)
        ensures
            flags.0 == 0,
    {
        MetaFlags(0)
    }
}

impl From<u32> for MetaFlags {
    fn from(val: u32) -> (flags: MetaFlags)
        ensures
            flags.0 == val,
    {
        MetaFlags(val)
    }
}

impl vstd::std_specs::convert::FromSpecImpl<u32> for MetaFlags {
    open spec fn obeys_from_spec() -> bool {
        true
    }

    open spec fn from_spec(v: u32) -> MetaFlags {
        MetaFlags(v)
    }
}

/// The status word that the hardware reports after a transfer.
#[derive(Debug, Copy, Clone, Eq, PartialEq, Ord, PartialOrd, Hash, Structural)]
pub struct MetaStatus(pub u32);

pub const OVERRUN_BIT: u32 = 0;

pub const UNDERRUN_BIT: u32 = 1;

impl MetaStatus {
    pub fn overrun(&self) -> (set: bool)
        ensures
            set == bit_is_set(self.0, OVERRUN_BIT),
    {
        get_bit(self.0, OVERRUN_BIT)
    }

    pub fn underrun(&self) -> (set: bool)
        ensures
            set == bit_is_set(self.0, UNDERRUN_BIT),
    {
        get_bit(self.0, UNDERRUN_BIT)
    }

    /// Zeroes the whole word, whatever it held.
    pub fn clear(&mut self)
        ensures
            final(self).0 == 0,
    {
        self.0 = 0;
    }

    /// The word in upper-case hexadecimal, after `0x`.
    pub fn to_string(&self) -> (text: String)
        ensures
            text@ == word_text(self.0),
    {
        word_to_string(self.0)
    }
}

impl Default for MetaStatus {
    fn default() -> (status: MetaStatus)
        ensures
            status.0 == 0,
    {
        MetaStatus(0)
    }
}

impl From<u32> for MetaStatus {
    fn from(val: u32) -> (status: MetaStatus)
        ensures
            status.0 == val,
    {
        MetaStatus(val)
    }
}

impl vstd::std_specs::convert::FromSpecImpl<u32> for MetaStatus {
    open spec fn obeys_from_spec() -> bool {
        true
    }

    open spec fn from_spec(v: u32) -> MetaStatus {
        MetaStatus(v)
    }
}

/// Number of reserved bytes at the end of the record.
pub const RESERVED_LEN: usize = 32;

/// What a metadata record holds.
pub struct MetadataView {
    pub timestamp: u64,
    pub flags: u32,
    pub status: u32,
    pub actual_count: u32,
    pub reserved: Seq<u8>,
}

impl MetadataView {
    /// The reserved region as every record holds it: all zero.
    pub open spec fn zero_reserved() -> Seq<u8> {
        Seq::new(32, |i: int| 0u8)
    }

    /// How a record is shown: timestamp, transfer count, flags and status.
    pub open spec fn text(self) -> Seq<char> {
        "t="@ + decimal_digits(self.timestamp as nat) + ", actual-count="@ + decimal_digits(
            self.actual_count as nat,
        ) + ", flags="@ + word_text(self.flags) + ", status="@ + word_text(self.status)
    }

    /// The record with the given words and a zeroed reserved region.
    pub open spec fn of(timestamp: u64, flags: u32, status: u32, actual_count: u32) -> MetadataView {
        MetadataView { timestamp, flags, status, actual_count, reserved: Self::zero_reserved() }
    }
}

/// The record exchanged with the driver on every transfer: the device
/// timestamp, the flags word, the status word, and the number of samples
/// that were actually transferred. Its reserved region is zero in every
/// record.
#[derive(Debug, Copy, Clone)]
pub struct Metadata {
    timestamp: u64,
    flags: u32,
    status: u32,
    actual_count: u32,
    reserved: [u8; 32],
}

impl View for Metadata {
    type V = MetadataView;

    closed spec fn view(&self) -> MetadataView {
        MetadataView {
            timestamp: self.timestamp,
            flags: self.flags,
            status: self.status,
            actual_count: self.actual_count,
            reserved: self.reserved@,
        }
    }
}

impl Metadata {
    #[verifier::type_invariant]
    closed spec fn reserved_is_zero(&self) -> bool {
        self.reserved@ =~= MetadataView::zero_reserved()
    }

    /// The reserved region, which is zero in every record.
    pub fn reserved(&self) -> (bytes: [u8; 32])
        ensures
            bytes@ == self@.reserved,
            bytes@ == MetadataView::zero_reserved(),
    {
        proof {
            use_type_invariant(self);
        }
        self.reserved
    }

    /// A record of zeroes.
    pub fn new() -> (md: Metadata)
        ensures
            md@ == MetadataView::of(0, 0, 0, 0),
    {
        Metadata { timestamp: 0, flags: 0, status: 0, actual_count: 0, reserved: [0u8; 32] }
    }

    /// A record of zeroes but for the "receive now" flag, for a caller who
    /// does not care when a burst starts.
    pub fn new_rx_now() -> (md: Metadata)
        ensures
            md@ == MetadataView::of(0, ffi::BLADERF_META_FLAG_RX_NOW, 0, 0),
            forall|bit: u32| bit < 32 ==> (#[trigger] bit_is_set(md@.flags, bit) <==> bit == RX_NOW_BIT),
    {
        let mut flags = MetaFlags::default();
        flags.set_rx_now(true);
        proof {
            lemma_single_bit(RX_NOW_BIT);
            lemma_masks_are_single_bits();
        }
        Metadata { timestamp: 0, flags: flags.0, status: 0, actual_count: 0, reserved: [0u8; 32] }
    }

    /// The record that holds the given words, as the driver left them after
    /// a transfer.
    pub fn from_raw(timestamp: u64, flags: u32, status: u32, actual_count: u32) -> (md: Metadata)
        ensures
            md@ == MetadataView::of(timestamp, flags, status, actual_count),
    {
        Metadata { timestamp, flags, status, actual_count, reserved: [0u8; 32] }
    }

    /// Zeroes every field.
    pub fn clear(&mut self)
        ensures
            final(self)@ == MetadataView::of(0, 0, 0, 0),
    {
        *self = Metadata { timestamp: 0, flags: 0, status: 0, actual_count: 0, reserved: [0u8; 32] };
    }

    pub fn timestamp(&self) -> (t: u64)
        ensures
            t == self@.timestamp,
    {
        self.timestamp
    }

    pub fn flags(&self) -> (flags: MetaFlags)
        ensures
            flags.0 == self@.flags,
    {
        MetaFlags(self.flags)
    }

    /// Replaces the flags word and nothing else.
    pub fn set_flags(&mut self, flags: MetaFlags)
        ensures
            final(self)@ == (MetadataView { flags: flags.0, ..old(self)@ }),
    {
        proof {
            use_type_invariant(&*self);
        }
        self.flags = flags.0;
    }

    /// The status word, which is a field of its own beside the flags word.
    pub fn status(&self) -> (status: MetaStatus)
        ensures
            status.0 == self@.status,
    {
        MetaStatus(self.status)
    }

    pub fn actual_count(&self) -> (n: u32)
        ensures
            n == self@.actual_count,
    {
        self.actual_count
    }

    /// The record as it is shown to a user.
    pub fn to_string(&self) -> (text: String)
        ensures
            text@ == self@.text(),
    {
        let mut text = "t=".to_owned();
        text.append(decimal_text(self.timestamp).as_str());
        text.append(", actual-count=");
        text.append(decimal_text(self.actual_count as u64).as_str());
        text.append(", flags=");
        text.append(self.flags().to_string().as_str());
        text.append(", status=");
        text.append(self.status().to_string().as_str());
        text
    }
}

impl Default for Metadata {
    fn default() -> (md: Metadata)
        ensures
            md@ == MetadataView::of(0, 0, 0, 0),
    {
        Metadata::new()
    }
}

} // verus!
