use bladerf::device::{
    self, DeviceSpeed, EnableModule, SyncConfig, SyncRx, Tune32, Tune64,
};
use bladerf::device_info::Backend;
use bladerf::device_limits;
use bladerf::ffi;
use bladerf::{
    Channel, ChannelLayout, DeviceInfo, Error, Format, Hertz, MilliSeconds, Sps,
    I16_PER_SAMPLE, SAMPLES_PER_BUFFER,
};

#[test]
fn status_codes_map_to_their_errors() {
    assert_eq!(Error::from(ffi::BLADERF_ERR_UNEXPECTED), Error::Unexpected);
    assert_eq!(Error::from(ffi::BLADERF_ERR_RANGE), Error::Range);
    assert_eq!(Error::from(ffi::BLADERF_ERR_INVAL), Error::Invalid);
    assert_eq!(Error::from(ffi::BLADERF_ERR_MEM), Error::Memory);
    assert_eq!(Error::from(ffi::BLADERF_ERR_IO), Error::Io);
    assert_eq!(Error::from(ffi::BLADERF_ERR_TIMEOUT), Error::Timeout);
    assert_eq!(Error::from(ffi::BLADERF_ERR_NODEV), Error::NoDevice);
    assert_eq!(Error::from(ffi::BLADERF_ERR_UNSUPPORTED), Error::Unsupported);
    assert_eq!(Error::from(ffi::BLADERF_ERR_QUEUE_FULL), Error::QueueFull);
    assert_eq!(Error::from(ffi::BLADERF_ERR_WOULD_BLOCK), Error::WouldBlock);
    assert_eq!(Error::from(ffi::BLADERF_ERR_NOT_INIT), Error::DeviceNotInit);
}

#[test]
fn status_code_values() {
    assert_eq!(Error::from(-1), Error::Unexpected);
    assert_eq!(Error::from(-2), Error::Range);
    assert_eq!(Error::from(-3), Error::Invalid);
    assert_eq!(Error::from(-4), Error::Memory);
    assert_eq!(Error::from(-5), Error::Io);
    assert_eq!(Error::from(-6), Error::Timeout);
    assert_eq!(Error::from(-7), Error::NoDevice);
    assert_eq!(Error::from(-8), Error::Unsupported);
    assert_eq!(Error::from(-15), Error::QueueFull);
    assert_eq!(Error::from(-18), Error::WouldBlock);
    assert_eq!(Error::from(-19), Error::DeviceNotInit);
}

#[test]
fn unnamed_status_codes_are_kept() {
    for code in [0, 1, 42, -9, -14, -16, -17, -20, i32::MIN, i32::MAX] {
        assert_eq!(Error::from(code), Error::Other(code));
    }
}

#[test]
fn check_takes_zero_for_success() {
    assert_eq!(Error::check(0), Ok(()));
    assert_eq!(Error::check(-6), Err(Error::Timeout));
    assert_eq!(Error::check(-19), Err(Error::DeviceNotInit));
    assert_eq!(Error::check(7), Err(Error::Other(7)));
}

#[test]
fn open_refuses_a_zero_byte() {
    assert_eq!(device::open(""), Ok(()));
    assert_eq!(device::open("*:serial=f12ce1037830a1b27f3ceeba1f521413"), Ok(()));
    assert_eq!(device::open("libusb:\0instance=0"), Err(Error::CString));
    assert_eq!(device::open("\0"), Err(Error::CString));
    assert_eq!(device::open("abc\0"), Err(Error::CString));
    assert_eq!(device::open("gerät"), Ok(()));
}

#[test]
fn open_result_checks_status_then_handle() {
    assert_eq!(device::open_result(0, false), Ok(()));
    assert_eq!(device::open_result(0, true), Err(Error::Invalid));
    assert_eq!(device::open_result(-7, true), Err(Error::NoDevice));
    assert_eq!(device::open_result(-7, false), Err(Error::NoDevice));
    assert_eq!(device::open_result(3, false), Err(Error::Other(3)));
    assert!(device::must_release(false));
    assert!(!device::must_release(true));
}

#[test]
fn sync_config_refuses_a_ragged_buffer_size() {
    let ms = MilliSeconds(3500);
    for size in [0usize, 1, 1000, 1023, 1025, 2047, 4095] {
        assert_eq!(
            device::sync_config(ChannelLayout::RxX1, Format::Sc16Q11, 16, size, 8, ms),
            Err(Error::SamplesPerBuffer)
        );
    }
    assert_eq!(
        device::sync_config(ChannelLayout::RxX1, Format::Sc16Q11, usize::MAX, 1000, 8, ms),
        Err(Error::SamplesPerBuffer)
    );
}

#[test]
fn sync_config_hands_on_multiples_of_the_granularity() {
    let ms = MilliSeconds(3500);
    assert_eq!(
        device::sync_config(ChannelLayout::RxX1, Format::Sc16Q11, 16, 1024, 8, ms),
        Ok(SyncConfig {
            layout: 0,
            format: 0,
            num_buffers: 16,
            buffer_size: 1024,
            num_transfers: 8,
            stream_timeout: 3500,
        })
    );
    assert_eq!(
        device::sync_config(ChannelLayout::TxX2, Format::Sc16Q11Meta, 32, 2048, 16, ms),
        Ok(SyncConfig {
            layout: 3,
            format: 1,
            num_buffers: 32,
            buffer_size: 2048,
            num_transfers: 16,
            stream_timeout: 3500,
        })
    );
    assert_eq!(SAMPLES_PER_BUFFER, 1024);
}

#[test]
fn sync_config_refuses_what_does_not_fit() {
    let ms = MilliSeconds(3500);
    assert_eq!(
        device::sync_config(
            ChannelLayout::RxX1,
            Format::Sc16Q11,
            16,
            1024,
            8,
            MilliSeconds(u32::MAX as u64 + 1)
        ),
        Err(Error::Range)
    );
    assert!(device::sync_config(
        ChannelLayout::RxX1,
        Format::Sc16Q11,
        u32::MAX as usize,
        1024,
        u32::MAX as usize,
        MilliSeconds(u32::MAX as u64)
    )
    .is_ok());
    if usize::BITS > 32 {
        let big = (u32::MAX as u64 + 1) as usize;
        assert_eq!(
            device::sync_config(ChannelLayout::RxX1, Format::Sc16Q11, big, 1024, 8, ms),
            Err(Error::Range)
        );
        assert_eq!(
            device::sync_config(ChannelLayout::RxX1, Format::Sc16Q11, 16, big, 8, ms),
            Err(Error::Range)
        );
        assert_eq!(
            device::sync_config(ChannelLayout::RxX1, Format::Sc16Q11, 16, 1024, big, ms),
            Err(Error::Range)
        );
    }
}

#[test]
fn sync_rx_refuses_an_odd_buffer() {
    let odd = [0i16; 3];
    assert_eq!(device::sync_rx(&odd, true, MilliSeconds(100)), Err(Error::SamplesLen));
    assert_eq!(device::sync_rx(&odd, false, MilliSeconds(u64::MAX)), Err(Error::SamplesLen));
    assert_eq!(device::sync_rx(&odd[..1], false, MilliSeconds(100)), Err(Error::SamplesLen));
}

#[test]
fn sync_rx_counts_complex_samples() {
    let buffer = vec![0i16; 2048];
    assert_eq!(
        device::sync_rx(&buffer, true, MilliSeconds(100)),
        Ok(SyncRx { num_samples: 1024, with_metadata: true, timeout_ms: 100 })
    );
    assert_eq!(
        device::sync_rx(&buffer[..4], false, MilliSeconds(0)),
        Ok(SyncRx { num_samples: 2, with_metadata: false, timeout_ms: 0 })
    );
    assert_eq!(
        device::sync_rx(&[], false, MilliSeconds(5)),
        Ok(SyncRx { num_samples: 0, with_metadata: false, timeout_ms: 5 })
    );
    assert_eq!(
        device::sync_rx(&buffer, false, MilliSeconds(u32::MAX as u64 + 1)),
        Err(Error::Range)
    );
    assert_eq!(I16_PER_SAMPLE, 2);
}

#[test]
fn tuning_narrows_to_the_driver_width() {
    assert_eq!(
        device::set_sample_rate(Channel::Rx0, Sps(61_440_000)),
        Ok(Tune32 { channel: 0, value: 61_440_000 })
    );
    assert_eq!(
        device::set_sample_rate(Channel::Tx1, Sps(u32::MAX as u64)),
        Ok(Tune32 { channel: 3, value: u32::MAX })
    );
    assert_eq!(device::set_sample_rate(Channel::Rx0, Sps(u32::MAX as u64 + 1)), Err(Error::Range));
    assert_eq!(
        device::set_bandwidth(Channel::Rx1, Hertz(56_000_000)),
        Ok(Tune32 { channel: 2, value: 56_000_000 })
    );
    assert_eq!(device::set_bandwidth(Channel::Rx1, Hertz(6_000_000_000)), Err(Error::Range));
    assert_eq!(
        device::set_frequency(Channel::Tx0, Hertz(6_000_000_000)),
        Tune64 { channel: 1, value: 6_000_000_000 }
    );
    assert_eq!(
        device::enable_module(Channel::Rx1, true),
        EnableModule { channel: 2, enable: true }
    );
    assert_eq!(
        device::enable_module(Channel::Tx0, false),
        EnableModule { channel: 1, enable: false }
    );
}

#[test]
fn tuning_reports_what_the_hardware_settled_on() {
    assert_eq!(device::set_sample_rate_result(0, 61_439_999), Ok(Sps(61_439_999)));
    assert_eq!(device::set_sample_rate_result(-2, 5), Err(Error::Range));
    assert_eq!(device::set_bandwidth_result(0, 1_500_000), Ok(Hertz(1_500_000)));
    assert_eq!(device::set_bandwidth_result(-8, 0), Err(Error::Unsupported));
    assert_eq!(device::set_bandwidth_result(99, 0), Err(Error::Other(99)));
}

#[test]
fn device_limits_of_the_micro() {
    assert_eq!(device_limits::FREQUENCY_MIN, 70_000_000);
    assert_eq!(device_limits::FREQUENCY_MAX, 6_000_000_000);
    assert_eq!(device_limits::BANDWIDTH_MIN, 200_000);
    assert_eq!(device_limits::BANDWIDTH_MAX, 56_000_000);
    assert_eq!(device_limits::SAMPLE_RATE_MIN, 1);
    assert_eq!(device_limits::SAMPLE_RATE_MAX, 61_440_000);
}

#[test]
fn device_speed_names() {
    assert_eq!(DeviceSpeed::Unknown.name(), "Unknown");
    assert_eq!(DeviceSpeed::High.name(), "High");
    assert_eq!(DeviceSpeed::Super.name(), "Super");
}

fn field(text: &[u8]) -> [u8; 33] {
    let mut out = [0u8; 33];
    out[..text.len()].copy_from_slice(text);
    out
}

fn info(serial: [u8; 33], manufacturer: [u8; 33], product: [u8; 33]) -> DeviceInfo {
    DeviceInfo {
        backend: Backend::LibUsb,
        serial,
        usb_bus: 2,
        usb_addr: 9,
        instance: 1,
        manufacturer,
        product,
    }
}

#[test]
fn device_info_reads_its_fields() {
    let di = info(
        field(b"f12ce1037830a1b27f3ceeba1f521413"),
        field(b"Nuand"),
        field(b"bladeRF 2.0"),
    );
    assert_eq!(di.backend(), Backend::LibUsb);
    assert_eq!(di.usb_bus(), 2);
    assert_eq!(di.usb_addr(), 9);
    assert_eq!(di.instance(), 1);
    assert_eq!(di.serial(), Ok("f12ce1037830a1b27f3ceeba1f521413".to_string()));
    assert_eq!(di.manufacturer(), Ok("Nuand".to_string()));
    assert_eq!(di.product(), Ok("bladeRF 2.0".to_string()));
}

#[test]
fn device_info_text_ends_at_the_first_zero() {
    let mut serial = field(b"abc");
    serial[5] = b'x';
    let di = info(serial, field(b""), [b'p'; 33]);
    assert_eq!(di.serial(), Ok("abc".to_string()));
    assert_eq!(di.manufacturer(), Ok(String::new()));
    assert_eq!(di.product(), Ok("p".repeat(33)));
}

#[test]
fn device_info_refuses_what_is_no_text() {
    let di = info(field(&[0xff, 0xfe]), field(&[b'a', 0xc3]), field("gerät".as_bytes()));
    assert_eq!(di.serial(), Err(Error::CString));
    assert_eq!(di.manufacturer(), Err(Error::CString));
    assert_eq!(di.product(), Ok("gerät".to_string()));
    let mut hidden = field(b"ok");
    hidden[10] = 0xff;
    assert_eq!(info(hidden, field(b""), field(b"")).serial(), Ok("ok".to_string()));
}

#[test]
fn errors_show_their_class() {
    assert_eq!(Error::CString.to_string(), format!("{:?}", Error::CString));
    assert_eq!(Error::SamplesPerBuffer.to_string(), "SamplesPerBuffer");
    assert_eq!(Error::SamplesLen.to_string(), "SamplesLen");
    for code in [-1, -2, -3, -4, -5, -6, -7, -8, -15, -18, -19, -9, 0, 77, i32::MIN, i32::MAX] {
        assert_eq!(Error::from(code).to_string(), format!("{:?}", Error::from(code)));
    }
    assert_eq!(Error::Other(-9).to_string(), "Other(-9)");
    assert_eq!(Error::Timeout.to_string(), "Timeout");
}

#[test]
fn device_info_shows_product_bus_and_serial() {
    let di = info(field(b"f12ce103"), field(b"Nuand"), field(b"bladeRF 2.0"));
    assert_eq!(di.to_string(), "bladeRF 2.0, USB 2:9, serial=f12ce103");
    let di = info(field(&[0xff]), field(b"Nuand"), field(&[0xc3, 0x28]));
    assert_eq!(di.to_string(), "NA, USB 2:9, serial=NA");
}

#[test]
fn only_three_errors_are_worth_a_retry() {
    assert!(Error::Timeout.is_retryable());
    assert!(Error::QueueFull.is_retryable());
    assert!(Error::WouldBlock.is_retryable());
    for e in [
        Error::CString,
        Error::SamplesPerBuffer,
        Error::SamplesLen,
        Error::Unexpected,
        Error::Range,
        Error::Invalid,
        Error::Memory,
        Error::Io,
        Error::NoDevice,
        Error::Unsupported,
        Error::DeviceNotInit,
        Error::Other(-6),
    ] {
        assert!(!e.is_retryable());
    }
}

#[test]
fn a_driver_error_after_valid_arguments_is_passed_on() {
    let call = device::sync_config(
        ChannelLayout::RxX1,
        Format::Sc16Q11Meta,
        16,
        2048,
        8,
        MilliSeconds(3500),
    );
    assert!(call.is_ok());
    assert_eq!(Error::check(0), Ok(()));
    assert_eq!(Error::check(ffi::BLADERF_ERR_NOT_INIT), Err(Error::DeviceNotInit));
    assert_eq!(Error::check(ffi::BLADERF_ERR_IO), Err(Error::Io));
}
