//! Byte-level protocol engine for a BLE sniffer attached over a UART.
//!
//! The radio sends captured link-layer packets inside delimited, byte-stuffed
//! frames. This crate extracts the frames from the byte stream, decodes the
//! sniffer header and the link-layer fields of each frame, builds the control
//! frames sent to the radio, and holds the decisions of the ingestion loop.
//! Every function is verified against a mathematical model of the wire format.

pub mod protocol;
pub mod advertising;
pub mod command;
pub mod decode;
pub mod ingest;
pub mod mac;
pub mod packet;
pub mod slip;

pub use advertising::parse_advertising_data;
pub use command::{make_send_bytes, make_send_scan_bytes, make_send_tk_bytes};
pub use ingest::{thread_should_stop, Pipeline, PipelineAction, PipelineEvent, PipelineState};
pub use mac::{get_mac_bytes_str, mac_is_recorded};
pub use packet::{
    BleLLCompleteLocalName, BleLLDataFlags, BleLLManufacturerSpecificData, BleLLNonConnIndMsg,
    BleLLPayload, BleLLScanReqMsg, BleLLTxPowerLevel, BleLinkLayer, BlePacket, BlePacketHeader,
    BlePacketHeaderAdv, BlePacketHeaderData, BlePacketSubHeader,
};
pub use slip::{add_bytes_to_slip, encode_frame, get_packet_bytes, FrameDecoder, SlipState};
