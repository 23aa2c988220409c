//! Decoder of one frame: the sniffer header, the link-layer fields and the
//! payload of the PDU.
//!
//! The layout of a frame, by byte position:
//!
//! | position | field |
//! |---|---|
//! | 0 | header length, always 6 |
//! | 1 | payload length, not stored |
//! | 2 | protocol version |
//! | 3..5 | packet counter, little-endian |
//! | 5 | packet-type identifier |
//! | 6 | packet metadata |
//! | 7 | channel index |
//! | 8 | signal strength, as a magnitude |
//! | 9..11 | event counter, little-endian |
//! | 11..15 | microseconds since the previous event, little-endian |
//! | 15..19 | access address, little-endian |
//! | 19 | PDU type and address bits |
//! | 20 | padding |
//! | 21 | length of the PDU payload |
//! | 22..28 | first address of the payload, least significant byte first |
//! | 28.. | rest of the payload |
//!
//! A frame is rejected when its first byte is not 6, when it is a scan
//! request whose payload length is not 12, or when it ends before the last
//! byte that its fields need. A rejected frame is still decoded as far as it
//! goes, with zero read in place of each missing byte, but nothing of it is
//! to be trusted.

use crate::advertising::{
    all_well_formed, encode_ads, flags_of, lemma_last_structure_wins, lemma_types_in_order,
    parse_ad, parse_advertising_data, reflects, types_of, u16_le, AdStructure,
};
use crate::packet::{
    empty_non_conn_ind, empty_packet, BleLLNonConnIndMsg, BleLLPayload, BleLLScanReqMsg,
    BleLinkLayer, BlePacket, BlePacketHeader, BlePacketHeaderAdv, BlePacketHeaderData,
    BlePacketSubHeader, LinkLayerModel, NonConnIndModel, PacketModel, PayloadModel, ScanReqModel,
};
use crate::protocol::{
    ADV_TYPE_ADV_NONCONN_IND, ADV_TYPE_SCAN_REQ, AD_TYPE_COMPLETE_LOCAL_NAME, AD_TYPE_FLAGS,
    EVENT_PACKET_ADV_PDU, EVENT_PACKET_DATA_PDU, HEADER_LENGTH,
};
use vstd::prelude::*;
use vstd::slice::slice_subrange;
use vstd::utf8::valid_utf8;

verus! {

/// Position of the protocol version.
pub const POS_PROTOCOL_VERSION: usize = 2;

/// Position of the packet counter.
pub const POS_PACKET_COUNTER: usize = 3;

/// Position of the packet-type identifier.
pub const POS_PACKET_ID: usize = 5;

/// Position of the packet metadata.
pub const POS_METADATA: usize = 6;

/// Position of the channel index.
pub const POS_CHANNEL: usize = 7;

/// Position of the signal-strength magnitude.
pub const POS_RSSI: usize = 8;

/// Position of the event counter.
pub const POS_EVENT_COUNTER: usize = 9;

/// Position of the time since the previous event.
pub const POS_DELTA_TIME: usize = 11;

/// Position of the access address.
pub const POS_ACCESS_ADDRESS: usize = 15;

/// Position of the byte with the PDU type and the address bits.
pub const POS_PDU_HEADER: usize = 19;

/// Position of the length of the PDU payload. The byte before it is padding.
pub const POS_PAYLOAD_LENGTH: usize = 21;

/// Position of the first byte of the PDU payload.
pub const POS_PAYLOAD: usize = 22;

/// Position of the first payload byte after the first address.
pub const POS_AFTER_MAC: usize = 28;

/// Payload length that a scan request must declare: two addresses.
pub const SCAN_REQ_PAYLOAD_LENGTH: u8 = 12;

/// The byte at position `i`, or zero where the frame has ended before it.
pub open spec fn byte_at(s: Seq<u8>, i: int) -> u8 {
    if 0 <= i < s.len() {
        s[i]
    } else {
        0
    }
}

/// The four bytes `b0` to `b3` read as a little-endian number.
pub open spec fn u32_le(b0: u8, b1: u8, b2: u8, b3: u8) -> u32 {
    (b0 + 256 * b1 + 65536 * b2 + 16777216 * b3) as u32
}

/// The record that depends on the kind of event: the data record where the
/// identifier names a data event, the advertising record where it names an
/// advertising event, none otherwise.
pub open spec fn sub_header_of(packet_id: u8, meta: u8) -> BlePacketSubHeader {
    if packet_id == EVENT_PACKET_DATA_PDU {
        BlePacketSubHeader::Data(
            BlePacketHeaderData {
                direction_to_slave: (meta >> 1u8) & 1u8 == 1u8,
                encrypted: (meta >> 2u8) & 1u8 == 1u8,
                mic_ok: (meta >> 3u8) & 1u8 == 1u8,
            },
        )
    } else if packet_id == EVENT_PACKET_ADV_PDU {
        BlePacketSubHeader::Adv(
            BlePacketHeaderAdv {
                aux_type: (meta >> 1u8) & 3u8,
                address_resolved: (meta >> 3u8) & 1u8 == 1u8,
            },
        )
    } else {
        BlePacketSubHeader::Absent
    }
}

/// The radio metadata that the frame holds.
pub open spec fn header_of(s: Seq<u8>) -> BlePacketHeader {
    let meta = byte_at(s, POS_METADATA as int);
    BlePacketHeader {
        crc_ok: meta & 1u8 == 1u8,
        sub_header: if s.len() > POS_METADATA {
            sub_header_of(byte_at(s, POS_PACKET_ID as int), meta)
        } else {
            BlePacketSubHeader::Absent
        },
        phy: (meta >> 1u8) & 7u8,
        channel_index: byte_at(s, POS_CHANNEL as int),
        rssi: (0 - byte_at(s, POS_RSSI as int)) as i16,
        event_counter: u16_le(
            byte_at(s, POS_EVENT_COUNTER as int),
            byte_at(s, POS_EVENT_COUNTER + 1),
        ),
        delta_time_us: u32_le(
            byte_at(s, POS_DELTA_TIME as int),
            byte_at(s, POS_DELTA_TIME + 1),
            byte_at(s, POS_DELTA_TIME + 2),
            byte_at(s, POS_DELTA_TIME + 3),
        ),
    }
}

/// The address whose six bytes start at position `start`. On the wire the
/// least significant byte comes first; the address has it last.
pub open spec fn mac_at(s: Seq<u8>, start: int) -> Seq<u8> {
    Seq::new(6, |k: int| byte_at(s, start + 5 - k))
}

/// The PDU type that the frame holds.
pub open spec fn pdu_type_of(s: Seq<u8>) -> u8 {
    byte_at(s, POS_PDU_HEADER as int) & 0x0Fu8
}

/// The length that the frame declares for the PDU payload.
pub open spec fn payload_length_of(s: Seq<u8>) -> u8 {
    byte_at(s, POS_PAYLOAD_LENGTH as int)
}

/// The position after the last byte of the PDU payload that can be read:
/// where the declared payload ends, or where the frame ends if that is
/// earlier.
pub open spec fn payload_end(s: Seq<u8>) -> int {
    if POS_PAYLOAD + payload_length_of(s) <= s.len() {
        POS_PAYLOAD + payload_length_of(s)
    } else {
        s.len() as int
    }
}

/// The advertising data of the frame: the payload bytes after the address.
pub open spec fn ad_region(s: Seq<u8>) -> Seq<u8> {
    if payload_end(s) > POS_AFTER_MAC {
        s.subrange(POS_AFTER_MAC as int, payload_end(s))
    } else {
        Seq::empty()
    }
}

/// The non-connectable advertisement that the frame holds.
pub open spec fn non_conn_ind_of(s: Seq<u8>) -> NonConnIndModel {
    parse_ad(
        ad_region(s),
        NonConnIndModel { advertising_mac: mac_at(s, POS_PAYLOAD as int), ..empty_non_conn_ind() },
    )
}

/// The scan request that the frame holds.
pub open spec fn scan_req_of(s: Seq<u8>) -> ScanReqModel {
    ScanReqModel {
        scanning_mac: mac_at(s, POS_PAYLOAD as int),
        advertising_mac: mac_at(s, POS_AFTER_MAC as int),
    }
}

/// True if the frame is a scan request that declares a payload length other
/// than that of two addresses.
pub open spec fn scan_req_mismatch(s: Seq<u8>) -> bool {
    pdu_type_of(s) == ADV_TYPE_SCAN_REQ && payload_length_of(s) != SCAN_REQ_PAYLOAD_LENGTH
}

/// The payload record that the frame holds: chosen by the PDU type, and none
/// for a scan request with a wrong payload length.
pub open spec fn payload_of(s: Seq<u8>) -> PayloadModel {
    if pdu_type_of(s) == ADV_TYPE_ADV_NONCONN_IND {
        PayloadModel::NonConnInd(non_conn_ind_of(s))
    } else if pdu_type_of(s) == ADV_TYPE_SCAN_REQ && !scan_req_mismatch(s) {
        PayloadModel::ScanReq(scan_req_of(s))
    } else {
        PayloadModel::Absent
    }
}

/// The link-layer fields that the frame holds.
pub open spec fn link_layer_of(s: Seq<u8>) -> LinkLayerModel {
    let pdu_header = byte_at(s, POS_PDU_HEADER as int);
    LinkLayerModel {
        access_address: u32_le(
            byte_at(s, POS_ACCESS_ADDRESS as int),
            byte_at(s, POS_ACCESS_ADDRESS + 1),
            byte_at(s, POS_ACCESS_ADDRESS + 2),
            byte_at(s, POS_ACCESS_ADDRESS + 3),
        ),
        pdu_type: pdu_type_of(s),
        channel_select: (pdu_header >> 5u8) & 1u8,
        tx_address_public: s.len() > POS_PDU_HEADER && (pdu_header >> 6u8) & 1u8 == 0u8,
        rx_address_public: s.len() > POS_PDU_HEADER && (pdu_header >> 7u8) & 1u8 == 0u8,
        payload: payload_of(s),
    }
}

/// True if the frame holds every byte that its fields need: the fixed
/// fields up to the payload length, the payload of the declared length, and
/// the first address where the PDU type has one.
pub open spec fn frame_is_complete(s: Seq<u8>) -> bool {
    &&& s.len() >= POS_PAYLOAD + payload_length_of(s)
    &&& (pdu_type_of(s) == ADV_TYPE_ADV_NONCONN_IND || pdu_type_of(s) == ADV_TYPE_SCAN_REQ)
        ==> s.len() >= POS_AFTER_MAC
}

/// True if the frame passes every structural check.
pub open spec fn frame_is_valid(s: Seq<u8>) -> bool {
    &&& s.len() > 0
    &&& s[0] == HEADER_LENGTH
    &&& !scan_req_mismatch(s)
    &&& frame_is_complete(s)
}

/// The packet that the frame holds.
///
/// Nothing is decoded of a frame that is empty or does not start with the
/// header length. Any other frame has its fields decoded as far as it goes.
pub open spec fn decode_packet(s: Seq<u8>) -> PacketModel {
    if s.len() == 0 || s[0] != HEADER_LENGTH {
        empty_packet()
    } else {
        PacketModel {
            valid: frame_is_valid(s),
            protocol_version: byte_at(s, POS_PROTOCOL_VERSION as int),
            packet_counter: u16_le(
                byte_at(s, POS_PACKET_COUNTER as int),
                byte_at(s, POS_PACKET_COUNTER + 1),
            ),
            packet_id: byte_at(s, POS_PACKET_ID as int),
            packet_header: header_of(s),
            ll_layer_data: link_layer_of(s),
        }
    }
}

/// A frame that does not start with the header length is never valid,
/// whatever follows its first byte.
pub proof fn lemma_wrong_header_length_is_invalid(s: Seq<u8>)
    requires
        s.len() > 0,
        s[0] != HEADER_LENGTH,
    ensures
        !decode_packet(s).valid,
        decode_packet(s) == empty_packet(),
{
}

/// A scan request that declares a payload length other than 12 is never
/// valid, and no scan-request record is made of it.
pub proof fn lemma_scan_req_needs_two_addresses(s: Seq<u8>)
    requires
        pdu_type_of(s) == ADV_TYPE_SCAN_REQ,
        payload_length_of(s) != SCAN_REQ_PAYLOAD_LENGTH,
    ensures
        !decode_packet(s).valid,
        decode_packet(s).ll_layer_data.payload is Absent,
{
}

/// A frame that ends before the last byte that its fields need is never
/// valid.
pub proof fn lemma_truncated_frame_is_invalid(s: Seq<u8>)
    requires
        !frame_is_complete(s),
    ensures
        !decode_packet(s).valid,
{
}

/// The signal strength decoded from any frame is the negated magnitude
/// byte, so it is never positive.
pub proof fn lemma_rssi_is_not_positive(s: Seq<u8>)
    ensures
        -255 <= header_of(s).rssi <= 0,
        header_of(s).rssi == -byte_at(s, POS_RSSI as int),
{
}

/// At most one payload record is decoded, and the PDU type chooses it.
pub proof fn lemma_payload_follows_pdu_type(s: Seq<u8>)
    ensures
        payload_of(s) is NonConnInd <==> pdu_type_of(s) == ADV_TYPE_ADV_NONCONN_IND,
        payload_of(s) is ScanReq <==> pdu_type_of(s) == ADV_TYPE_SCAN_REQ && payload_length_of(s)
            == SCAN_REQ_PAYLOAD_LENGTH,
{
}

/// A non-connectable advertisement whose advertising data is made of
/// well-formed AD structures has the type code of each of them recorded, in
/// the order of the payload, and no other.
pub proof fn lemma_every_ad_type_recorded(s: Seq<u8>, ads: Seq<AdStructure>)
    requires
        s.len() > 0,
        s[0] == HEADER_LENGTH,
        pdu_type_of(s) == ADV_TYPE_ADV_NONCONN_IND,
        all_well_formed(ads),
        ad_region(s) == encode_ads(ads),
    ensures
        decode_packet(s).ll_layer_data.payload matches PayloadModel::NonConnInd(msg)
            && msg.advertising_types == types_of(ads) && msg.advertising_mac == mac_at(
            s,
            POS_PAYLOAD as int,
        ),
{
    let start = NonConnIndModel {
        advertising_mac: mac_at(s, POS_PAYLOAD as int),
        ..empty_non_conn_ind()
    };
    lemma_types_in_order(ads, start);
    assert(start.advertising_types + types_of(ads) =~= types_of(ads));
}

/// Last write wins: where the advertising data of a non-connectable
/// advertisement holds several structures of one type, the field of that type
/// holds what the last of them says. Of two Flags structures, the flags are
/// those of the second.
pub proof fn lemma_last_structure_of_a_type_wins(
    s: Seq<u8>,
    before: Seq<AdStructure>,
    ad: AdStructure,
    after: Seq<AdStructure>,
)
    requires
        s.len() > 0,
        s[0] == HEADER_LENGTH,
        pdu_type_of(s) == ADV_TYPE_ADV_NONCONN_IND,
        all_well_formed(before),
        all_well_formed(after),
        ad.well_formed(),
        ad.value.len() > 0,
        !(ad.ad_type == AD_TYPE_COMPLETE_LOCAL_NAME && !valid_utf8(ad.value)),
        forall|i: int| 0 <= i < after.len() ==> (#[trigger] after[i]).ad_type != ad.ad_type,
        ad_region(s) == encode_ads(before + seq![ad] + after),
    ensures
        decode_packet(s).ll_layer_data.payload matches PayloadModel::NonConnInd(msg) && reflects(
            msg,
            ad,
        ),
        ad.ad_type == AD_TYPE_FLAGS ==> (decode_packet(s).ll_layer_data.payload
            matches PayloadModel::NonConnInd(msg) && msg.flags == Some(flags_of(ad.value.last()))),
{
    let start = NonConnIndModel {
        advertising_mac: mac_at(s, POS_PAYLOAD as int),
        ..empty_non_conn_ind()
    };
    lemma_last_structure_wins(before, ad, after, start);
}

/// Reads the byte at position `i`, or zero where the frame has ended.
pub fn read_byte(bytes: &[u8], i: usize) -> (b: u8)
    ensures
        b == byte_at(bytes@, i as int),
{
    if i < bytes.len() {
        bytes[i]
    } else {
        0
    }
}

/// Reads the little-endian number of two bytes at position `i`.
pub fn read_u16_le(bytes: &[u8], i: usize) -> (value: u16)
    requires
        i < usize::MAX,
    ensures
        value == u16_le(byte_at(bytes@, i as int), byte_at(bytes@, i + 1)),
{
    let lo: u16 = read_byte(bytes, i) as u16;
    let hi: u16 = read_byte(bytes, i + 1) as u16;
    lo + 256 * hi
}

/// Reads the little-endian number of four bytes at position `i`.
pub fn read_u32_le(bytes: &[u8], i: usize) -> (value: u32)
    requires
        i < usize::MAX - 3,
    ensures
        value == u32_le(
            byte_at(bytes@, i as int),
            byte_at(bytes@, i + 1),
            byte_at(bytes@, i + 2),
            byte_at(bytes@, i + 3),
        ),
{
    let b0: u32 = read_byte(bytes, i) as u32;
    let b1: u32 = read_byte(bytes, i + 1) as u32;
    let b2: u32 = read_byte(bytes, i + 2) as u32;
    let b3: u32 = read_byte(bytes, i + 3) as u32;
    b0 + 256 * b1 + 65536 * b2 + 16777216 * b3
}

/// Reads the address whose six bytes start at position `start`, and turns
/// it round so that its most significant byte comes first.
pub fn read_mac(bytes: &[u8], start: usize) -> (mac: [u8; 6])
    requires
        start < usize::MAX - 5,
    ensures
        mac@ == mac_at(bytes@, start as int),
{
    let mac: [u8; 6] = [
        read_byte(bytes, start + 5),
        read_byte(bytes, start + 4),
        read_byte(bytes, start + 3),
        read_byte(bytes, start + 2),
        read_byte(bytes, start + 1),
        read_byte(bytes, start),
    ];
    assert(mac@ =~= mac_at(bytes@, start as int));
    mac
}

/// Reads the record that depends on the kind of event from the metadata
/// byte.
pub fn decode_sub_header(packet_id: u8, meta: u8) -> (sub_header: BlePacketSubHeader)
    ensures
        sub_header == sub_header_of(packet_id, meta),
{
    if packet_id == EVENT_PACKET_DATA_PDU {
        BlePacketSubHeader::Data(
            BlePacketHeaderData {
                direction_to_slave: (meta >> 1u8) & 1u8 == 1u8,
                encrypted: (meta >> 2u8) & 1u8 == 1u8,
                mic_ok: (meta >> 3u8) & 1u8 == 1u8,
            },
        )
    } else if packet_id == EVENT_PACKET_ADV_PDU {
        BlePacketSubHeader::Adv(
            BlePacketHeaderAdv {
                aux_type: (meta >> 1u8) & 3u8,
                address_resolved: (meta >> 3u8) & 1u8 == 1u8,
            },
        )
    } else {
        BlePacketSubHeader::Absent
    }
}

/// Decodes the radio metadata of a frame.
pub fn decode_header(bytes: &[u8]) -> (header: BlePacketHeader)
    ensures
        header == header_of(bytes@),
{
    let meta: u8 = read_byte(bytes, POS_METADATA);
    let magnitude: i16 = read_byte(bytes, POS_RSSI) as i16;
    BlePacketHeader {
        crc_ok: meta & 1u8 == 1u8,
        sub_header: if bytes.len() > POS_METADATA {
            decode_sub_header(read_byte(bytes, POS_PACKET_ID), meta)
        } else {
            BlePacketSubHeader::Absent
        },
        phy: (meta >> 1u8) & 7u8,
        channel_index: read_byte(bytes, POS_CHANNEL),
        rssi: 0 - magnitude,
        event_counter: read_u16_le(bytes, POS_EVENT_COUNTER),
        delta_time_us: read_u32_le(bytes, POS_DELTA_TIME),
    }
}

/// Finds where the readable part of the PDU payload ends.
pub fn find_payload_end(bytes: &[u8]) -> (end: usize)
    ensures
        end == payload_end(bytes@),
{
    let declared: usize = read_byte(bytes, POS_PAYLOAD_LENGTH) as usize;
    if POS_PAYLOAD + declared <= bytes.len() {
        POS_PAYLOAD + declared
    } else {
        bytes.len()
    }
}

/// Decodes the payload of a non-connectable advertisement: the address of
/// the advertiser and the advertising data.
pub fn decode_non_conn_ind(bytes: &[u8]) -> (msg: BleLLNonConnIndMsg)
    ensures
        msg@ == non_conn_ind_of(bytes@),
{
    let mut msg: BleLLNonConnIndMsg = BleLLNonConnIndMsg::new();
    msg.advertising_mac = read_mac(bytes, POS_PAYLOAD);
    let end: usize = find_payload_end(bytes);
    if end > POS_AFTER_MAC {
        parse_advertising_data(slice_subrange(bytes, POS_AFTER_MAC, end), &mut msg);
    } else {
        let rest: &[u8] = slice_subrange(bytes, 0, 0);
        assert(rest@ =~= Seq::<u8>::empty());
        parse_advertising_data(rest, &mut msg);
    }
    msg
}

/// Decodes the payload of the PDU.
pub fn decode_payload(bytes: &[u8]) -> (payload: BleLLPayload)
    ensures
        payload@ == payload_of(bytes@),
{
    let pdu_type: u8 = read_byte(bytes, POS_PDU_HEADER) & 0x0Fu8;
    if pdu_type == ADV_TYPE_ADV_NONCONN_IND {
        BleLLPayload::NonConnInd(decode_non_conn_ind(bytes))
    } else if pdu_type == ADV_TYPE_SCAN_REQ && read_byte(bytes, POS_PAYLOAD_LENGTH)
        == SCAN_REQ_PAYLOAD_LENGTH {
        BleLLPayload::ScanReq(
            BleLLScanReqMsg {
                scanning_mac: read_mac(bytes, POS_PAYLOAD),
                advertising_mac: read_mac(bytes, POS_AFTER_MAC),
            },
        )
    } else {
        BleLLPayload::Absent
    }
}

/// Decodes the link-layer fields of a frame.
pub fn decode_link_layer(bytes: &[u8]) -> (link_layer: BleLinkLayer)
    ensures
        link_layer@ == link_layer_of(bytes@),
{
    let pdu_header: u8 = read_byte(bytes, POS_PDU_HEADER);
    let present: bool = bytes.len() > POS_PDU_HEADER;
    BleLinkLayer {
        access_address: read_u32_le(bytes, POS_ACCESS_ADDRESS),
        pdu_type: pdu_header & 0x0Fu8,
        channel_select: (pdu_header >> 5u8) & 1u8,
        tx_address_public: present && (pdu_header >> 6u8) & 1u8 == 0u8,
        rx_address_public: present && (pdu_header >> 7u8) & 1u8 == 0u8,
        payload: decode_payload(bytes),
    }
}

/// Tells whether a frame passes every structural check.
pub fn check_frame(bytes: &[u8]) -> (ok: bool)
    ensures
        ok == frame_is_valid(bytes@),
{
    let count: usize = bytes.len();
    if count == 0 || bytes[0] != HEADER_LENGTH {
        return false;
    }
    let pdu_type: u8 = read_byte(bytes, POS_PDU_HEADER) & 0x0Fu8;
    let declared: u8 = read_byte(bytes, POS_PAYLOAD_LENGTH);
    if pdu_type == ADV_TYPE_SCAN_REQ && declared != SCAN_REQ_PAYLOAD_LENGTH {
        return false;
    }
    if count < POS_PAYLOAD + declared as usize {
        return false;
    }
    if (pdu_type == ADV_TYPE_ADV_NONCONN_IND || pdu_type == ADV_TYPE_SCAN_REQ) && count
        < POS_AFTER_MAC {
        return false;
    }
    true
}

impl BlePacket {
    /// Decodes the unescaped bytes of one frame.
    ///
    /// The packet is valid exactly if the frame starts with the header
    /// length, holds every byte that its fields need and, where it is a scan
    /// request, declares a payload of two addresses.
    pub fn from(bytes: &Vec<u8>) -> (packet: BlePacket)
        ensures
            packet@ == decode_packet(bytes@),
            packet.valid == frame_is_valid(bytes@),
            bytes@.len() > 0 && bytes@[0] != HEADER_LENGTH ==> !packet.valid,
            scan_req_mismatch(bytes@) ==> !packet.valid,
    {
        let frame: &[u8] = bytes.as_slice();
        if frame.len() == 0 || frame[0] != HEADER_LENGTH {
            return BlePacket::new();
        }
        BlePacket {
            valid: check_frame(frame),
            protocol_version: read_byte(frame, POS_PROTOCOL_VERSION),
            packet_counter: read_u16_le(frame, POS_PACKET_COUNTER),
            packet_id: read_byte(frame, POS_PACKET_ID),
            packet_header: decode_header(frame),
            ll_layer_data: decode_link_layer(frame),
        }
    }
}

} // verus!
