//! The record decoded from one frame, and its mathematical model.
//!
//! Each type that owns heap data has a view: a value made of integers,
//! booleans and sequences that the contracts of the decoder speak of. The
//! types made of integers and booleans alone stand for themselves.

use vstd::prelude::*;

verus! {

/// Metadata of an advertising event.
#[derive(Clone, Copy, Debug, PartialEq, Eq, Structural)]
pub struct BlePacketHeaderAdv {
    pub aux_type: u8,
    pub address_resolved: bool,
}

/// Metadata of a data event.
#[derive(Clone, Copy, Debug, PartialEq, Eq, Structural)]
pub struct BlePacketHeaderData {
    pub direction_to_slave: bool,
    pub encrypted: bool,
    pub mic_ok: bool,
}

/// The part of the header that depends on the kind of event. At most one of
/// the two records exists, chosen by the packet-type identifier.
#[derive(Clone, Copy, Debug, PartialEq, Eq, Structural)]
pub enum BlePacketSubHeader {
    /// The frame reports neither an advertising nor a data event.
    Absent,
    Adv(BlePacketHeaderAdv),
    Data(BlePacketHeaderData),
}

/// Radio metadata of one captured packet.
#[derive(Clone, Copy, Debug, PartialEq, Eq, Structural)]
pub struct BlePacketHeader {
    pub crc_ok: bool,
    pub sub_header: BlePacketSubHeader,
    pub phy: u8,
    pub channel_index: u8,
    /// Signal strength: the negated magnitude byte, never positive.
    pub rssi: i16,
    pub event_counter: u16,
    pub delta_time_us: u32,
}

/// The Flags field of advertising data.
#[derive(Clone, Copy, Debug, PartialEq, Eq, Structural)]
pub struct BleLLDataFlags {
    pub simultaneous_host: bool,
    pub simultaneous_controller: bool,
    pub br_edr_support: bool,
    pub le_general_discoverable: bool,
    pub le_limited_discoverable: bool,
}

/// The TX Power Level field of advertising data.
#[derive(Clone, Copy, Debug, PartialEq, Eq, Structural)]
pub struct BleLLTxPowerLevel {
    pub tx_power_level: i8,
}

/// The Complete Local Name field of advertising data.
#[derive(Clone, Debug, PartialEq, Eq)]
pub struct BleLLCompleteLocalName {
    pub device_name: String,
}

/// The Manufacturer Specific Data field of advertising data.
#[derive(Clone, Debug, PartialEq, Eq)]
pub struct BleLLManufacturerSpecificData {
    pub company_id: u16,
    pub data: Vec<u8>,
}

/// Model of `BleLLManufacturerSpecificData`.
pub struct ManufacturerModel {
    pub company_id: u16,
    pub data: Seq<u8>,
}

/// Payload of a non-connectable advertisement.
#[derive(Clone, Debug, PartialEq, Eq)]
pub struct BleLLNonConnIndMsg {
    /// Address of the advertiser, most significant byte first.
    pub advertising_mac: [u8; 6],
    /// Type code of every AD structure met, in the order of the payload.
    pub advertising_types: Vec<u8>,
    pub flags: Option<BleLLDataFlags>,
    pub complete_local_name: Option<BleLLCompleteLocalName>,
    pub tx_power_level: Option<BleLLTxPowerLevel>,
    pub manufacturer_data: Option<BleLLManufacturerSpecificData>,
}

/// Model of `BleLLNonConnIndMsg`.
pub struct NonConnIndModel {
    pub advertising_mac: Seq<u8>,
    pub advertising_types: Seq<u8>,
    pub flags: Option<BleLLDataFlags>,
    pub complete_local_name: Option<Seq<char>>,
    pub tx_power_level: Option<i8>,
    pub manufacturer_data: Option<ManufacturerModel>,
}

/// Payload of a scan request.
#[derive(Clone, Copy, Debug, PartialEq, Eq)]
pub struct BleLLScanReqMsg {
    /// Address of the scanner, most significant byte first.
    pub scanning_mac: [u8; 6],
    /// Address of the advertiser, most significant byte first.
    pub advertising_mac: [u8; 6],
}

/// Model of `BleLLScanReqMsg`.
pub struct ScanReqModel {
    pub scanning_mac: Seq<u8>,
    pub advertising_mac: Seq<u8>,
}

/// The payload of the PDU. At most one of the two records exists, chosen by
/// the PDU type.
#[derive(Clone, Debug, PartialEq, Eq)]
pub enum BleLLPayload {
    /// The PDU type is one whose payload is not decoded, or the frame was
    /// rejected before its payload.
    Absent,
    NonConnInd(BleLLNonConnIndMsg),
    ScanReq(BleLLScanReqMsg),
}

/// Model of `BleLLPayload`.
pub enum PayloadModel {
    Absent,
    NonConnInd(NonConnIndModel),
    ScanReq(ScanReqModel),
}

/// The link-layer fields of one captured packet.
#[derive(Clone, Debug, PartialEq, Eq)]
pub struct BleLinkLayer {
    pub access_address: u32,
    pub pdu_type: u8,
    pub channel_select: u8,
    pub tx_address_public: bool,
    pub rx_address_public: bool,
    pub payload: BleLLPayload,
}

/// Model of `BleLinkLayer`.
pub struct LinkLayerModel {
    pub access_address: u32,
    pub pdu_type: u8,
    pub channel_select: u8,
    pub tx_address_public: bool,
    pub rx_address_public: bool,
    pub payload: PayloadModel,
}

/// What was decoded from one frame. Unless `valid` is set, no other field is
/// to be trusted.
#[derive(Clone, Debug, PartialEq, Eq)]
pub struct BlePacket {
    pub valid: bool,
    pub protocol_version: u8,
    pub packet_counter: u16,
    pub packet_id: u8,
    pub packet_header: BlePacketHeader,
    pub ll_layer_data: BleLinkLayer,
}

/// Model of `BlePacket`.
pub struct PacketModel {
    pub valid: bool,
    pub protocol_version: u8,
    pub packet_counter: u16,
    pub packet_id: u8,
    pub packet_header: BlePacketHeader,
    pub ll_layer_data: LinkLayerModel,
}

impl View for BleLLManufacturerSpecificData {
    type V = ManufacturerModel;

    open spec fn view(&self) -> ManufacturerModel {
        ManufacturerModel { company_id: self.company_id, data: self.data@ }
    }
}

impl View for BleLLNonConnIndMsg {
    type V = NonConnIndModel;

    open spec fn view(&self) -> NonConnIndModel {
        NonConnIndModel {
            advertising_mac: self.advertising_mac@,
            advertising_types: self.advertising_types@,
            flags: self.flags,
            complete_local_name: match self.complete_local_name {
                Some(name) => Some(name.device_name@),
                None => None,
            },
            tx_power_level: match self.tx_power_level {
                Some(level) => Some(level.tx_power_level),
                None => None,
            },
            manufacturer_data: match self.manufacturer_data {
                Some(data) => Some(data@),
                None => None,
            },
        }
    }
}

impl View for BleLLScanReqMsg {
    type V = ScanReqModel;

    open spec fn view(&self) -> ScanReqModel {
        ScanReqModel { scanning_mac: self.scanning_mac@, advertising_mac: self.advertising_mac@ }
    }
}

impl View for BleLLPayload {
    type V = PayloadModel;

    open spec fn view(&self) -> PayloadModel {
        match self {
            BleLLPayload::Absent => PayloadModel::Absent,
            BleLLPayload::NonConnInd(msg) => PayloadModel::NonConnInd(msg@),
            BleLLPayload::ScanReq(msg) => PayloadModel::ScanReq(msg@),
        }
    }
}

impl View for BleLinkLayer {
    type V = LinkLayerModel;

    open spec fn view(&self) -> LinkLayerModel {
        LinkLayerModel {
            access_address: self.access_address,
            pdu_type: self.pdu_type,
            channel_select: self.channel_select,
            tx_address_public: self.tx_address_public,
            rx_address_public: self.rx_address_public,
            payload: self.payload@,
        }
    }
}

impl View for BlePacket {
    type V = PacketModel;

    open spec fn view(&self) -> PacketModel {
        PacketModel {
            valid: self.valid,
            protocol_version: self.protocol_version,
            packet_counter: self.packet_counter,
            packet_id: self.packet_id,
            packet_header: self.packet_header,
            ll_layer_data: self.ll_layer_data@,
        }
    }
}

/// An address of six zero bytes.
pub open spec fn zero_mac() -> Seq<u8> {
    Seq::new(6, |i: int| 0u8)
}

/// The header of a frame of which nothing was decoded.
pub open spec fn empty_header() -> BlePacketHeader {
    BlePacketHeader {
        crc_ok: false,
        sub_header: BlePacketSubHeader::Absent,
        phy: 0,
        channel_index: 0,
        rssi: 0,
        event_counter: 0,
        delta_time_us: 0,
    }
}

/// The link layer of a frame of which nothing was decoded.
pub open spec fn empty_link_layer() -> LinkLayerModel {
    LinkLayerModel {
        access_address: 0,
        pdu_type: 0,
        channel_select: 0,
        tx_address_public: false,
        rx_address_public: false,
        payload: PayloadModel::Absent,
    }
}

/// The advertisement of which nothing was decoded.
pub open spec fn empty_non_conn_ind() -> NonConnIndModel {
    NonConnIndModel {
        advertising_mac: zero_mac(),
        advertising_types: Seq::empty(),
        flags: None,
        complete_local_name: None,
        tx_power_level: None,
        manufacturer_data: None,
    }
}

/// The scan request of which nothing was decoded.
pub open spec fn empty_scan_req() -> ScanReqModel {
    ScanReqModel { scanning_mac: zero_mac(), advertising_mac: zero_mac() }
}

/// The packet of which nothing was decoded: invalid, with every field zero
/// or absent.
pub open spec fn empty_packet() -> PacketModel {
    PacketModel {
        valid: false,
        protocol_version: 0,
        packet_counter: 0,
        packet_id: 0,
        packet_header: empty_header(),
        ll_layer_data: empty_link_layer(),
    }
}

impl BlePacketHeader {
    /// A header with every field zero or absent.
    pub fn new() -> (header: BlePacketHeader)
        ensures
            header == empty_header(),
    {
        BlePacketHeader {
            crc_ok: false,
            sub_header: BlePacketSubHeader::Absent,
            phy: 0,
            channel_index: 0,
            rssi: 0,
            event_counter: 0,
            delta_time_us: 0,
        }
    }
}

impl BleLinkLayer {
    /// Link-layer data with every field zero or absent.
    pub fn new() -> (link_layer: BleLinkLayer)
        ensures
            link_layer@ == empty_link_layer(),
    {
        BleLinkLayer {
            access_address: 0,
            pdu_type: 0,
            channel_select: 0,
            tx_address_public: false,
            rx_address_public: false,
            payload: BleLLPayload::Absent,
        }
    }
}

impl BleLLNonConnIndMsg {
    /// An advertisement with a zero address and no advertising data.
    pub fn new() -> (msg: BleLLNonConnIndMsg)
        ensures
            msg@ == empty_non_conn_ind(),
    {
        let msg = BleLLNonConnIndMsg {
            advertising_mac: [0u8, 0u8, 0u8, 0u8, 0u8, 0u8],
            advertising_types: Vec::new(),
            flags: None,
            complete_local_name: None,
            tx_power_level: None,
            manufacturer_data: None,
        };
        assert(msg.advertising_mac@ =~= zero_mac());
        msg
    }
}

impl BleLLScanReqMsg {
    /// A scan request with two zero addresses.
    pub fn new() -> (msg: BleLLScanReqMsg)
        ensures
            msg@ == empty_scan_req(),
    {
        let msg = BleLLScanReqMsg {
            scanning_mac: [0u8, 0u8, 0u8, 0u8, 0u8, 0u8],
            advertising_mac: [0u8, 0u8, 0u8, 0u8, 0u8, 0u8],
        };
        assert(msg.scanning_mac@ =~= zero_mac());
        assert(msg.advertising_mac@ =~= zero_mac());
        msg
    }
}

impl BlePacket {
    /// The packet of which nothing was decoded.
    pub fn new() -> (packet: BlePacket)
        ensures
            packet@ == empty_packet(),
    {
        BlePacket {
            valid: false,
            protocol_version: 0,
            packet_counter: 0,
            packet_id: 0,
            packet_header: BlePacketHeader::new(),
            ll_layer_data: BleLinkLayer::new(),
        }
    }
}

} // verus!
