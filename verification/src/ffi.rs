//! The driver's code space: status codes, metadata bit masks and the integer
//! codes of layouts and sample formats, as the driver's C interface defines
//! them.
#![allow(non_upper_case_globals)]

use vstd::prelude::*;

verus! {

pub const BLADERF_ERR_UNEXPECTED: i32 = -1;

pub const BLADERF_ERR_RANGE: i32 = -2;

pub const BLADERF_ERR_INVAL: i32 = -3;

pub const BLADERF_ERR_MEM: i32 = -4;

pub const BLADERF_ERR_IO: i32 = -5;

pub const BLADERF_ERR_TIMEOUT: i32 = -6;

pub const BLADERF_ERR_NODEV: i32 = -7;

pub const BLADERF_ERR_UNSUPPORTED: i32 = -8;

pub const BLADERF_ERR_QUEUE_FULL: i32 = -15;

pub const BLADERF_ERR_WOULD_BLOCK: i32 = -18;

pub const BLADERF_ERR_NOT_INIT: i32 = -19;

pub const BLADERF_META_STATUS_OVERRUN: u32 = 0x1;

pub const BLADERF_META_STATUS_UNDERRUN: u32 = 0x2;

pub const BLADERF_META_FLAG_TX_BURST_START: u32 = 0x1;

pub const BLADERF_META_FLAG_TX_BURST_END: u32 = 0x2;

pub const BLADERF_META_FLAG_TX_NOW: u32 = 0x4;

pub const BLADERF_META_FLAG_TX_UPDATE_TIMESTAMP: u32 = 0x8;

pub const BLADERF_META_FLAG_RX_NOW: u32 = 0x8000_0000;

pub const BLADERF_META_FLAG_RX_HW_UNDERFLOW: u32 = 0x1;

pub const BLADERF_META_FLAG_RX_HW_MINIEXP1: u32 = 0x1_0000;

pub const BLADERF_META_FLAG_RX_HW_MINIEXP2: u32 = 0x2_0000;

pub const BLADERF_RX_X1: u32 = 0;

pub const BLADERF_TX_X1: u32 = 1;

pub const BLADERF_RX_X2: u32 = 2;

pub const BLADERF_TX_X2: u32 = 3;

pub const BLADERF_FORMAT_SC16_Q11: u32 = 0;

pub const BLADERF_FORMAT_SC16_Q11_META: u32 = 1;

} // verus!
