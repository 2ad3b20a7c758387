use bladerf::ffi::{
    BLADERF_FORMAT_SC16_Q11, BLADERF_FORMAT_SC16_Q11_META, BLADERF_RX_X1, BLADERF_RX_X2,
    BLADERF_TX_X1, BLADERF_TX_X2,
};
use bladerf::ChannelLayout::{RxX1, RxX2, TxX1, TxX2};
use bladerf::Format::{Sc16Q11, Sc16Q11Meta};
use bladerf::{Channel, ChannelLayout, Format};

#[test]
fn channel_ffi() {
    assert_eq!(Channel::Rx0.into_ffi(), 0b00);
    assert_eq!(Channel::Rx1.into_ffi(), 0b10);

    assert_eq!(Channel::Tx0.into_ffi(), 0b01);
    assert_eq!(Channel::Tx1.into_ffi(), 0b11);
}

#[test]
fn channel_layout_ffi() {
    assert_eq!(RxX1.into_ffi(), BLADERF_RX_X1);
    assert_eq!(TxX1.into_ffi(), BLADERF_TX_X1);
    assert_eq!(RxX2.into_ffi(), BLADERF_RX_X2);
    assert_eq!(TxX2.into_ffi(), BLADERF_TX_X2);
}

#[test]
fn format_ffi() {
    assert_eq!(Sc16Q11.into_ffi(), BLADERF_FORMAT_SC16_Q11);
    assert_eq!(Sc16Q11Meta.into_ffi(), BLADERF_FORMAT_SC16_Q11_META);
}

#[test]
fn channel_code_is_index_and_direction() {
    for (ch, index, tx) in [
        (Channel::Rx0, 0, 0),
        (Channel::Rx1, 1, 0),
        (Channel::Tx0, 0, 1),
        (Channel::Tx1, 1, 1),
    ] {
        assert_eq!(ch.into_ffi(), (index << 1) | tx);
    }
}

#[test]
fn layout_codes_are_distinct() {
    let codes = [
        ChannelLayout::RxX1.into_ffi(),
        ChannelLayout::TxX1.into_ffi(),
        ChannelLayout::RxX2.into_ffi(),
        ChannelLayout::TxX2.into_ffi(),
    ];
    assert_eq!(codes, [0, 1, 2, 3]);
    assert_ne!(Format::Sc16Q11.into_ffi(), Format::Sc16Q11Meta.into_ffi());
}

#[test]
fn descriptor_names() {
    assert_eq!(Channel::Rx0.name(), "Rx0");
    assert_eq!(Channel::Rx1.name(), "Rx1");
    assert_eq!(Channel::Tx0.name(), "Tx0");
    assert_eq!(Channel::Tx1.name(), "Tx1");
    assert_eq!(ChannelLayout::RxX1.name(), "x1 RX (SISO)");
    assert_eq!(ChannelLayout::TxX1.name(), "x1 TX (SISO)");
    assert_eq!(ChannelLayout::RxX2.name(), "x2 RX (MIMO)");
    assert_eq!(ChannelLayout::TxX2.name(), "x2 TX (MIMO)");
    assert_eq!(Format::Sc16Q11.name(), "Signed, Complex 16-bit Q11");
    assert_eq!(Format::Sc16Q11Meta.name(), "Signed, Complex 16-bit Q11, with Metadata");
}
