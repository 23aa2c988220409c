//! Constants of the sniffer's UART protocol and of the BLE link layer.

use vstd::prelude::*;

verus! {

/// Marks the first byte of a frame on the wire.
pub const SLIP_START: u8 = 0xAB;

/// Marks the last byte of a frame on the wire.
pub const SLIP_END: u8 = 0xBC;

/// Announces that the next wire byte is an escaped literal.
pub const SLIP_ESC: u8 = 0xCD;

/// Follows `SLIP_ESC` in place of a literal `SLIP_START`.
pub const SLIP_ESC_START: u8 = 0xAC;

/// Follows `SLIP_ESC` in place of a literal `SLIP_END`.
pub const SLIP_ESC_END: u8 = 0xBD;

/// Follows `SLIP_ESC` in place of a literal `SLIP_ESC`.
pub const SLIP_ESC_ESC: u8 = 0xCE;

pub const PROTOVER_V3: u8 = 3;

pub const PROTOVER_V2: u8 = 2;

pub const PROTOVER_V1: u8 = 1;

/// Value that the first byte of every frame must hold.
pub const HEADER_LENGTH: u8 = 6;

pub const REQ_FOLLOW: u8 = 0x00;

pub const EVENT_FOLLOW: u8 = 0x01;

pub const EVENT_PACKET_ADV_PDU: u8 = 0x02;

pub const EVENT_CONNECT: u8 = 0x05;

pub const EVENT_PACKET_DATA_PDU: u8 = 0x06;

pub const REQ_SCAN_CONT: u8 = 0x07;

pub const EVENT_DISCONNECT: u8 = 0x09;

pub const SET_TEMPORARY_KEY: u8 = 0x0C;

pub const PING_REQ: u8 = 0x0D;

pub const PING_RESP: u8 = 0x0E;

pub const SWITCH_BAUD_RATE_REQ: u8 = 0x13;

pub const SWITCH_BAUD_RATE_RESP: u8 = 0x14;

pub const SET_ADV_CHANNEL_HOP_SEQ: u8 = 0x17;

pub const SET_PRIVATE_KEY: u8 = 0x18;

pub const SET_LEGACY_LONG_TERM_KEY: u8 = 0x19;

pub const SET_SC_LONG_TERM_KEY: u8 = 0x1A;

pub const REQ_VERSION: u8 = 0x1B;

pub const RESP_VERSION: u8 = 0x1C;

pub const REQ_TIMESTAMP: u8 = 0x1D;

pub const RESP_TIMESTAMP: u8 = 0x1E;

pub const SET_IDENTITY_RESOLVING_KEY: u8 = 0x1F;

pub const GO_IDLE: u8 = 0xFE;

pub const PACKET_TYPE_UNKNOWN: u8 = 0x00;

pub const PACKET_TYPE_ADVERTISING: u8 = 0x01;

pub const PACKET_TYPE_DATA: u8 = 0x02;

pub const AUX_ADV_IND: u8 = 0;

pub const AUX_CHAIN_IND: u8 = 1;

pub const AUX_SYNC_IND: u8 = 2;

pub const AUX_SCAN_RSP: u8 = 3;

pub const ADV_TYPE_ADV_IND: u8 = 0x0;

pub const ADV_TYPE_ADV_DIRECT_IND: u8 = 0x1;

pub const ADV_TYPE_ADV_NONCONN_IND: u8 = 0x2;

pub const ADV_TYPE_SCAN_REQ: u8 = 0x3;

pub const ADV_TYPE_SCAN_RSP: u8 = 0x4;

pub const ADV_TYPE_CONNECT_REQ: u8 = 0x5;

pub const ADV_TYPE_ADV_SCAN_IND: u8 = 0x6;

pub const ADV_TYPE_ADV_EXT_IND: u8 = 0x7;

pub const PHY_1M: u8 = 0;

pub const PHY_2M: u8 = 1;

pub const PHY_CODED: u8 = 2;

pub const PHY_CODED_CI_S8: u8 = 0;

pub const PHY_CODED_CI_S2: u8 = 1;

/// AD structure type of the Flags field.
pub const AD_TYPE_FLAGS: u8 = 0x01;

/// AD structure type of the Complete Local Name field.
pub const AD_TYPE_COMPLETE_LOCAL_NAME: u8 = 0x09;

/// AD structure type of the TX Power Level field.
pub const AD_TYPE_TX_POWER_LEVEL: u8 = 0x0A;

/// AD structure type of the Manufacturer Specific Data field.
pub const AD_TYPE_MANUFACTURER_DATA: u8 = 0xFF;

} // verus!
