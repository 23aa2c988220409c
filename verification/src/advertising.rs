//! Advertising data: the sequence of AD structures in the payload of a
//! non-connectable advertisement.
//!
//! An AD structure is a length byte, a type byte and the value. The length
//! byte counts the type byte and the value bytes; a length byte of zero is
//! read as a structure of a type byte alone. The payload may end inside a
//! structure: what is there of it is still read.

use crate::packet::{
    BleLLCompleteLocalName, BleLLDataFlags, BleLLManufacturerSpecificData, BleLLNonConnIndMsg,
    BleLLTxPowerLevel, ManufacturerModel, NonConnIndModel,
};
use crate::protocol::{
    AD_TYPE_COMPLETE_LOCAL_NAME, AD_TYPE_FLAGS, AD_TYPE_MANUFACTURER_DATA, AD_TYPE_TX_POWER_LEVEL,
};
use vstd::prelude::*;
use vstd::slice::slice_subrange;
use vstd::slice::slice_to_vec;
use vstd::utf8::decode_utf8;
use vstd::utf8::valid_utf8;

verus! {

/// The five flags held by the value byte of a Flags structure.
pub open spec fn flags_of(b: u8) -> BleLLDataFlags {
    BleLLDataFlags {
        simultaneous_host: (b >> 4u8) & 1u8 == 1u8,
        simultaneous_controller: (b >> 3u8) & 1u8 == 1u8,
        br_edr_support: (b >> 2u8) & 1u8 == 1u8,
        le_general_discoverable: (b >> 1u8) & 1u8 == 1u8,
        le_limited_discoverable: b & 1u8 == 1u8,
    }
}

/// The value byte of a TX Power Level structure, read as a signed number
/// in two's complement.
pub open spec fn tx_power_of(b: u8) -> i8 {
    if b < 128 {
        b as i8
    } else {
        (b - 256) as i8
    }
}

/// The two bytes `lo`, `hi` read as a little-endian number.
pub open spec fn u16_le(lo: u8, hi: u8) -> u16 {
    (lo + 256 * hi) as u16
}

/// The company identifier at the start of a manufacturer value. A value of
/// one byte gives that byte.
pub open spec fn company_id_of(value: Seq<u8>) -> u16 {
    if value.len() >= 2 {
        u16_le(value[0], value[1])
    } else if value.len() == 1 {
        value[0] as u16
    } else {
        0
    }
}

/// What a manufacturer value holds: the company identifier and the bytes
/// after it.
pub open spec fn manufacturer_of(value: Seq<u8>) -> ManufacturerModel {
    ManufacturerModel {
        company_id: company_id_of(value),
        data: if value.len() > 2 {
            value.subrange(2, value.len() as int)
        } else {
            Seq::empty()
        },
    }
}

/// How many value bytes a structure with this length byte has.
pub open spec fn value_len(length_byte: u8) -> int {
    if length_byte == 0 {
        0
    } else {
        length_byte - 1
    }
}

/// The fields after a structure of type `ad_type` whose value, as far as the
/// payload holds it, is `value`.
///
/// A value without bytes changes nothing. Flags and TX Power Level take the
/// last byte of the value. Complete Local Name and Manufacturer Specific Data
/// need the whole value, so they change only if the structure is `complete`;
/// a name that is not valid UTF-8 leaves the field as it was. A field that is
/// set replaces what an earlier structure of that type had set.
pub open spec fn with_value(
    acc: NonConnIndModel,
    ad_type: u8,
    value: Seq<u8>,
    complete: bool,
) -> NonConnIndModel {
    if value.len() == 0 {
        acc
    } else if ad_type == AD_TYPE_FLAGS {
        NonConnIndModel { flags: Some(flags_of(value.last())), ..acc }
    } else if ad_type == AD_TYPE_TX_POWER_LEVEL {
        NonConnIndModel { tx_power_level: Some(tx_power_of(value.last())), ..acc }
    } else if ad_type == AD_TYPE_COMPLETE_LOCAL_NAME && complete && valid_utf8(value) {
        NonConnIndModel { complete_local_name: Some(decode_utf8(value)), ..acc }
    } else if ad_type == AD_TYPE_MANUFACTURER_DATA && complete {
        NonConnIndModel { manufacturer_data: Some(manufacturer_of(value)), ..acc }
    } else {
        acc
    }
}

/// The fields after one more type code has been met.
pub open spec fn with_type(acc: NonConnIndModel, ad_type: u8) -> NonConnIndModel {
    NonConnIndModel { advertising_types: acc.advertising_types.push(ad_type), ..acc }
}

/// The fields after the AD structures in `data` have been read, one after
/// the other, starting from the fields `acc`.
///
/// A last byte that stands alone is a length byte without a structure and is
/// skipped. A structure whose value runs past the end of `data` has its type
/// recorded and is read with the value bytes that are there.
pub open spec fn parse_ad(data: Seq<u8>, acc: NonConnIndModel) -> NonConnIndModel
    decreases data.len(),
{
    if data.len() < 2 {
        acc
    } else {
        let want = value_len(data[0]);
        let ad_type = data[1];
        let seen = with_type(acc, ad_type);
        if 2 + want <= data.len() {
            parse_ad(
                data.subrange(2 + want, data.len() as int),
                with_value(seen, ad_type, data.subrange(2, 2 + want), true),
            )
        } else {
            with_value(seen, ad_type, data.subrange(2, data.len() as int), false)
        }
    }
}

/// One AD structure as a mathematical value: its type code and its value.
pub struct AdStructure {
    pub ad_type: u8,
    pub value: Seq<u8>,
}

impl AdStructure {
    /// True if the length byte can count the type byte and the value.
    pub open spec fn well_formed(self) -> bool {
        self.value.len() <= 254
    }

    /// The bytes of the structure in a payload.
    pub open spec fn encode(self) -> Seq<u8> {
        seq![(self.value.len() + 1) as u8, self.ad_type] + self.value
    }
}

/// The bytes of a payload made of the structures `ads`, in their order.
pub open spec fn encode_ads(ads: Seq<AdStructure>) -> Seq<u8>
    decreases ads.len(),
{
    if ads.len() == 0 {
        Seq::empty()
    } else {
        ads[0].encode() + encode_ads(ads.drop_first())
    }
}

/// The type codes of the structures `ads`, in their order.
pub open spec fn types_of(ads: Seq<AdStructure>) -> Seq<u8> {
    ads.map_values(|ad: AdStructure| ad.ad_type)
}

/// True if each of the structures `ads` is well formed.
pub open spec fn all_well_formed(ads: Seq<AdStructure>) -> bool {
    forall|i: int| 0 <= i < ads.len() ==> (#[trigger] ads[i]).well_formed()
}

/// Reading a payload that starts with a well-formed structure is reading
/// that structure whole and then the rest of the payload.
pub proof fn lemma_parse_first(ad: AdStructure, rest: Seq<u8>, acc: NonConnIndModel)
    requires
        ad.well_formed(),
    ensures
        parse_ad(ad.encode() + rest, acc) == parse_ad(
            rest,
            with_value(with_type(acc, ad.ad_type), ad.ad_type, ad.value, true),
        ),
{
    let data = ad.encode() + rest;
    let want = value_len(data[0]);
    assert(data[0] == (ad.value.len() + 1) as u8);
    assert(data[1] == ad.ad_type);
    assert(want == ad.value.len());
    assert(data.subrange(2, 2 + want) =~= ad.value);
    assert(data.subrange(2 + want, data.len() as int) =~= rest);
}

/// Every well-formed structure of a payload has its type code recorded, in
/// the order of the payload, after the type codes recorded before. The address
/// stays as it was.
pub proof fn lemma_types_in_order(ads: Seq<AdStructure>, acc: NonConnIndModel)
    requires
        all_well_formed(ads),
    ensures
        parse_ad(encode_ads(ads), acc).advertising_types == acc.advertising_types + types_of(ads),
        parse_ad(encode_ads(ads), acc).advertising_mac == acc.advertising_mac,
    decreases ads.len(),
{
    if ads.len() == 0 {
        assert(acc.advertising_types + types_of(ads) =~= acc.advertising_types);
    } else {
        let first = ads[0];
        let rest = ads.drop_first();
        let next = with_value(with_type(acc, first.ad_type), first.ad_type, first.value, true);
        lemma_parse_first(first, encode_ads(rest), acc);
        lemma_types_in_order(rest, next);
        assert(next.advertising_types == acc.advertising_types.push(first.ad_type));
        assert(acc.advertising_types.push(first.ad_type) + types_of(rest)
            =~= acc.advertising_types + types_of(ads));
    }
}

/// True if the field that belongs to the type of `ad` holds what the value
/// of `ad` says. A name that is not valid UTF-8 says nothing, and neither
/// does a structure of another type.
pub open spec fn reflects(fields: NonConnIndModel, ad: AdStructure) -> bool {
    &&& ad.ad_type == AD_TYPE_FLAGS ==> fields.flags == Some(flags_of(ad.value.last()))
    &&& ad.ad_type == AD_TYPE_TX_POWER_LEVEL ==> fields.tx_power_level == Some(
        tx_power_of(ad.value.last()),
    )
    &&& ad.ad_type == AD_TYPE_COMPLETE_LOCAL_NAME && valid_utf8(ad.value)
        ==> fields.complete_local_name == Some(decode_utf8(ad.value))
    &&& ad.ad_type == AD_TYPE_MANUFACTURER_DATA ==> fields.manufacturer_data == Some(
        manufacturer_of(ad.value),
    )
}

/// True if the field that belongs to the type `ad_type` is the same in both.
pub open spec fn same_field(a: NonConnIndModel, b: NonConnIndModel, ad_type: u8) -> bool {
    &&& ad_type == AD_TYPE_FLAGS ==> a.flags == b.flags
    &&& ad_type == AD_TYPE_TX_POWER_LEVEL ==> a.tx_power_level == b.tx_power_level
    &&& ad_type == AD_TYPE_COMPLETE_LOCAL_NAME ==> a.complete_local_name == b.complete_local_name
    &&& ad_type == AD_TYPE_MANUFACTURER_DATA ==> a.manufacturer_data == b.manufacturer_data
}

/// Structures of other types leave the field of a type as it was.
pub proof fn lemma_field_kept(ads: Seq<AdStructure>, acc: NonConnIndModel, ad_type: u8)
    requires
        all_well_formed(ads),
        forall|i: int| 0 <= i < ads.len() ==> (#[trigger] ads[i]).ad_type != ad_type,
    ensures
        same_field(parse_ad(encode_ads(ads), acc), acc, ad_type),
    decreases ads.len(),
{
    if ads.len() > 0 {
        let first = ads[0];
        let rest = ads.drop_first();
        let next = with_value(with_type(acc, first.ad_type), first.ad_type, first.value, true);
        lemma_parse_first(first, encode_ads(rest), acc);
        assert forall|i: int| 0 <= i < rest.len() implies (#[trigger] rest[i]).well_formed()
            && rest[i].ad_type != ad_type by {
            assert(rest[i] == ads[i + 1]);
        }
        lemma_field_kept(rest, next, ad_type);
    }
}

/// The last structure of a type wins: where a payload holds a structure with
/// a value and no structure of the same type after it, the field of that type
/// holds what this structure says, whatever stood before it.
pub proof fn lemma_last_structure_wins(
    before: Seq<AdStructure>,
    ad: AdStructure,
    after: Seq<AdStructure>,
    acc: NonConnIndModel,
)
    requires
        all_well_formed(before),
        all_well_formed(after),
        ad.well_formed(),
        ad.value.len() > 0,
        !(ad.ad_type == AD_TYPE_COMPLETE_LOCAL_NAME && !valid_utf8(ad.value)),
        forall|i: int| 0 <= i < after.len() ==> (#[trigger] after[i]).ad_type != ad.ad_type,
    ensures
        reflects(parse_ad(encode_ads(before + seq![ad] + after), acc), ad),
    decreases before.len(),
{
    let ads = before + seq![ad] + after;
    if before.len() == 0 {
        assert(ads[0] == ad);
        assert(ads.drop_first() =~= after);
        let next = with_value(with_type(acc, ad.ad_type), ad.ad_type, ad.value, true);
        lemma_parse_first(ad, encode_ads(after), acc);
        lemma_field_kept(after, next, ad.ad_type);
    } else {
        let first = before[0];
        let rest = before.drop_first();
        let next = with_value(with_type(acc, first.ad_type), first.ad_type, first.value, true);
        assert(ads[0] == first);
        assert(ads.drop_first() =~= rest + seq![ad] + after);
        lemma_parse_first(first, encode_ads(ads.drop_first()), acc);
        assert forall|i: int| 0 <= i < rest.len() implies (#[trigger] rest[i]).well_formed() by {
            assert(rest[i] == before[i + 1]);
        }
        lemma_last_structure_wins(rest, ad, after, next);
    }
}

/// `String::from_utf8` of the standard library: the text that the bytes
/// encode. The contract takes from its documentation that the call succeeds
/// exactly on well-formed UTF-8 and then returns the text that the bytes
/// encode; nothing of this is proved here.
#[verifier::external_body]
fn string_from_utf8(bytes: Vec<u8>) -> (text: Option<String>)
    ensures
        text is Some <==> valid_utf8(bytes@),
        text matches Some(s) ==> s@ == decode_utf8(bytes@),
{
    match String::from_utf8(bytes) {
        Ok(s) => Some(s),
        Err(_) => None,
    }
}

/// Reads the five flags from the value byte of a Flags structure.
pub fn flags_from_byte(b: u8) -> (flags: BleLLDataFlags)
    ensures
        flags == flags_of(b),
{
    BleLLDataFlags {
        simultaneous_host: (b >> 4u8) & 1u8 == 1u8,
        simultaneous_controller: (b >> 3u8) & 1u8 == 1u8,
        br_edr_support: (b >> 2u8) & 1u8 == 1u8,
        le_general_discoverable: (b >> 1u8) & 1u8 == 1u8,
        le_limited_discoverable: b & 1u8 == 1u8,
    }
}

/// Reads the signed level from the value byte of a TX Power Level structure.
pub fn tx_power_from_byte(b: u8) -> (level: i8)
    ensures
        level == tx_power_of(b),
{
    if b < 128 {
        b as i8
    } else {
        let wide: i16 = b as i16;
        (wide - 256) as i8
    }
}

/// Reads the company identifier and the data from a manufacturer value.
pub fn manufacturer_from_value(value: &[u8]) -> (result: BleLLManufacturerSpecificData)
    ensures
        result@ == manufacturer_of(value@),
{
    let count: usize = value.len();
    let company_id: u16 = if count >= 2 {
        let lo: u16 = value[0] as u16;
        let hi: u16 = value[1] as u16;
        lo + 256 * hi
    } else if count == 1 {
        value[0] as u16
    } else {
        0
    };
    let data: Vec<u8> = if count > 2 {
        slice_to_vec(slice_subrange(value, 2, count))
    } else {
        Vec::new()
    };
    BleLLManufacturerSpecificData { company_id, data }
}

/// Takes into `msg` a structure of type `ad_type` whose value, as far as
/// the payload holds it, is `value`.
pub fn apply_value(msg: &mut BleLLNonConnIndMsg, ad_type: u8, value: &[u8], complete: bool)
    ensures
        final(msg)@ == with_value(old(msg)@, ad_type, value@, complete),
{
    let count: usize = value.len();
    if count == 0 {
    } else if ad_type == AD_TYPE_FLAGS {
        msg.flags = Some(flags_from_byte(value[count - 1]));
    } else if ad_type == AD_TYPE_TX_POWER_LEVEL {
        msg.tx_power_level = Some(
            BleLLTxPowerLevel { tx_power_level: tx_power_from_byte(value[count - 1]) },
        );
    } else if ad_type == AD_TYPE_COMPLETE_LOCAL_NAME && complete {
        match string_from_utf8(slice_to_vec(value)) {
            Some(name) => {
                msg.complete_local_name = Some(BleLLCompleteLocalName { device_name: name });
            },
            None => {},
        }
    } else if ad_type == AD_TYPE_MANUFACTURER_DATA && complete {
        msg.manufacturer_data = Some(manufacturer_from_value(value));
    }
}

/// Reads the AD structures in `data` into `msg`, which holds the address and
/// whatever was read before.
pub fn parse_advertising_data(data: &[u8], msg: &mut BleLLNonConnIndMsg)
    ensures
        final(msg)@ == parse_ad(data@, old(msg)@),
{
    let end: usize = data.len();
    let mut pos: usize = 0;
    assert(data@.subrange(0, end as int) =~= data@);
    while end - pos >= 2
        invariant
            pos <= end,
            end == data@.len(),
            parse_ad(data@, old(msg)@) == parse_ad(data@.subrange(pos as int, end as int), msg@),
        decreases end - pos,
    {
        let ghost rest = data@.subrange(pos as int, end as int);
        let ghost before = msg@;
        let length_byte: u8 = data[pos];
        let ad_type: u8 = data[pos + 1];
        let want: usize = if length_byte == 0 {
            0
        } else {
            (length_byte - 1) as usize
        };
        let room: usize = end - pos - 2;
        let complete: bool = want <= room;
        let take: usize = if complete {
            want
        } else {
            room
        };
        msg.advertising_types.push(ad_type);
        assert(msg@ == with_type(before, ad_type));
        let value: &[u8] = slice_subrange(data, pos + 2, pos + 2 + take);
        apply_value(msg, ad_type, value, complete);
        proof {
            assert(rest[0] == length_byte);
            assert(rest[1] == ad_type);
            assert(want == value_len(length_byte));
            assert(value@ =~= rest.subrange(2, 2 + take));
            assert(rest.subrange(2 + take, rest.len() as int) =~= data@.subrange(
                pos + 2 + take,
                end as int,
            ));
        }
        pos = pos + 2 + take;
    }
}

} // verus!
