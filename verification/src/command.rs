//! Command encoder: the control frames sent to the radio.
//!
//! A command is a header of six bytes followed by its payload, sent as one
//! frame of the codec: the header length, the payload length in one byte,
//! the protocol version 1, the packet counter of the sender, little-endian,
//! and the command identifier.

use crate::protocol::{HEADER_LENGTH, PROTOVER_V1, REQ_SCAN_CONT, SET_TEMPORARY_KEY};
use crate::slip::{
    encode_frame, encode_frame_spec, frames, initial_decoder, lemma_encode_then_decode,
};
use vstd::prelude::*;

verus! {

/// Number of bytes in the payload of the temporary-key command.
pub const TEMPORARY_KEY_LENGTH: usize = 16;

/// The six header bytes of a command whose payload has `payload_len`
/// bytes. Only the low byte of the payload length has room in the header.
pub open spec fn command_header(id: u8, payload_len: nat, packet_counter: u16) -> Seq<u8> {
    seq![
        HEADER_LENGTH,
        (payload_len % 256) as u8,
        PROTOVER_V1,
        (packet_counter % 256) as u8,
        (packet_counter / 256) as u8,
        id,
    ]
}

/// The unescaped bytes of a command: the header and the payload.
pub open spec fn command_frame(id: u8, payload: Seq<u8>, packet_counter: u16) -> Seq<u8> {
    command_header(id, payload.len(), packet_counter) + payload
}

/// The flag byte of the scan-configuration command: bit 0 asks for scan
/// responses, bit 1 for auxiliary PDUs, bit 2 for scanning on the coded PHY.
pub open spec fn scan_flags(find_scan_rsp: bool, find_aux: bool, scan_coded: bool) -> u8 {
    ((if find_scan_rsp {
        1int
    } else {
        0int
    }) + (if find_aux {
        2int
    } else {
        0int
    }) + (if scan_coded {
        4int
    } else {
        0int
    })) as u8
}

/// The payload of the temporary-key command: sixteen bytes equal to `tk`.
pub open spec fn temporary_key(tk: u8) -> Seq<u8> {
    Seq::new(TEMPORARY_KEY_LENGTH as nat, |i: int| tk)
}

/// The wire bytes of the scan-configuration command.
pub open spec fn scan_command(
    find_scan_rsp: bool,
    find_aux: bool,
    scan_coded: bool,
    packet_counter: u16,
) -> Seq<u8> {
    encode_frame_spec(
        command_frame(
            REQ_SCAN_CONT,
            seq![scan_flags(find_scan_rsp, find_aux, scan_coded)],
            packet_counter,
        ),
    )
}

/// The wire bytes of the temporary-key command.
pub open spec fn temporary_key_command(tk: u8, packet_counter: u16) -> Seq<u8> {
    encode_frame_spec(command_frame(SET_TEMPORARY_KEY, temporary_key(tk), packet_counter))
}

/// A command that is decoded by the frame codec comes out as the one frame
/// that was put in, and that frame starts with the header length.
pub proof fn lemma_command_survives_framing(id: u8, payload: Seq<u8>, packet_counter: u16)
    ensures
        frames(
            initial_decoder(),
            encode_frame_spec(command_frame(id, payload, packet_counter)),
        ) == seq![command_frame(id, payload, packet_counter)],
        command_frame(id, payload, packet_counter)[0] == HEADER_LENGTH,
        command_frame(id, payload, packet_counter).len() == 6 + payload.len(),
{
    lemma_encode_then_decode(command_frame(id, payload, packet_counter));
}

/// Builds the wire bytes of the command `id` with the given payload.
pub fn make_send_bytes(id: u8, payload: &[u8], packet_counter: u16) -> (wire: Vec<u8>)
    ensures
        wire@ == encode_frame_spec(command_frame(id, payload@, packet_counter)),
{
    let mut plain: Vec<u8> = Vec::new();
    plain.push(HEADER_LENGTH);
    plain.push((payload.len() % 256) as u8);
    plain.push(PROTOVER_V1);
    plain.push((packet_counter % 256) as u8);
    plain.push((packet_counter / 256) as u8);
    plain.push(id);
    let ghost header = command_header(id, payload@.len(), packet_counter);
    assert(plain@ =~= header + payload@.subrange(0, 0));
    let mut i: usize = 0;
    while i < payload.len()
        invariant
            i <= payload.len(),
            plain@ == header + payload@.subrange(0, i as int),
        decreases payload.len() - i,
    {
        plain.push(payload[i]);
        assert(plain@ =~= header + payload@.subrange(0, i + 1));
        i = i + 1;
    }
    assert(payload@.subrange(0, i as int) =~= payload@);
    encode_frame(plain.as_slice())
}

/// Builds the wire bytes of the scan-configuration command.
pub fn make_send_scan_bytes(
    find_scan_rsp: bool,
    find_aux: bool,
    scan_coded: bool,
    packet_counter: u16,
) -> (wire: Vec<u8>)
    ensures
        wire@ == scan_command(find_scan_rsp, find_aux, scan_coded, packet_counter),
{
    let mut flags: u8 = 0;
    if find_scan_rsp {
        flags = 1;
    }
    if find_aux {
        flags = flags + 2;
    }
    if scan_coded {
        flags = flags + 4;
    }
    let payload: [u8; 1] = [flags];
    assert(payload@ =~= seq![scan_flags(find_scan_rsp, find_aux, scan_coded)]);
    make_send_bytes(REQ_SCAN_CONT, payload.as_slice(), packet_counter)
}

/// Builds the wire bytes of the temporary-key command, whose payload is
/// sixteen bytes equal to `tk`.
pub fn make_send_tk_bytes(tk: u8, packet_counter: u16) -> (wire: Vec<u8>)
    ensures
        wire@ == temporary_key_command(tk, packet_counter),
{
    let payload: [u8; 16] = [tk, tk, tk, tk, tk, tk, tk, tk, tk, tk, tk, tk, tk, tk, tk, tk];
    assert(payload@ =~= temporary_key(tk));
    make_send_bytes(SET_TEMPORARY_KEY, payload.as_slice(), packet_counter)
}

} // verus!
