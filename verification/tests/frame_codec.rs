use ble_sniffer::protocol::{SLIP_END, SLIP_ESC, SLIP_START};
use ble_sniffer::slip::{
    add_bytes_to_slip, encode_frame, get_packet_bytes, unescape_byte, FrameDecoder, SlipState,
};

#[test]
fn encode_wraps_plain_payload_in_delimiters() {
    assert_eq!(encode_frame(&[1, 2, 3]), vec![0xAB, 1, 2, 3, 0xBC]);
}

#[test]
fn encode_of_empty_payload_is_the_two_delimiters() {
    assert_eq!(encode_frame(&[]), vec![0xAB, 0xBC]);
}

#[test]
fn encode_escapes_each_reserved_byte() {
    assert_eq!(
        encode_frame(&[0xAB, 0xBC, 0xCD]),
        vec![0xAB, 0xCD, 0xAC, 0xCD, 0xBD, 0xCD, 0xCE, 0xBC]
    );
}

#[test]
fn end_byte_in_payload_travels_escaped() {
    let wire = encode_frame(&[0x10, SLIP_END, 0x20]);
    assert_eq!(wire, vec![SLIP_START, 0x10, SLIP_ESC, 0xBD, 0x20, SLIP_END]);
    let (frames, read) = get_packet_bytes(wire);
    assert_eq!(frames, vec![vec![0x10, 0xBC, 0x20]]);
    assert_eq!(read, 6);
}

#[test]
fn round_trip_of_payloads_with_reserved_bytes_in_any_position() {
    let payloads: Vec<Vec<u8>> = vec![
        vec![],
        vec![0],
        vec![0xAB],
        vec![0xBC],
        vec![0xCD],
        vec![0xAC, 0xBD, 0xCE],
        vec![0xAB, 0xAB, 0xBC, 0xBC, 0xCD, 0xCD],
        vec![1, 0xCD, 0xCD, 2, 0xBC, 3, 0xAB],
        vec![0xCD, 0xAC],
        (0..=255).collect(),
    ];
    for payload in payloads {
        let wire = encode_frame(&payload);
        let length = wire.len();
        let (frames, read) = get_packet_bytes(wire);
        assert_eq!(frames, vec![payload]);
        assert_eq!(read, length);
    }
}

#[test]
fn bytes_before_the_first_start_are_discarded() {
    let (frames, read) = get_packet_bytes(vec![1, 2, 0xBC, 0xCD, 0xAB, 7, 8, 0xBC]);
    assert_eq!(frames, vec![vec![7, 8]]);
    assert_eq!(read, 8);
}

#[test]
fn several_frames_come_out_in_order() {
    let (frames, read) = get_packet_bytes(vec![0xAB, 1, 0xBC, 9, 9, 0xAB, 0xBC, 0xAB, 2, 3, 0xBC]);
    assert_eq!(frames, vec![vec![1], vec![], vec![2, 3]]);
    assert_eq!(read, 11);
}

#[test]
fn frame_left_open_is_not_returned() {
    let (frames, read) = get_packet_bytes(vec![0xAB, 1, 0xBC, 0xAB, 2, 3]);
    assert_eq!(frames, vec![vec![1]]);
    assert_eq!(read, 6);
}

#[test]
fn empty_input_gives_no_frame() {
    let (frames, read) = get_packet_bytes(vec![]);
    assert_eq!(frames, Vec::<Vec<u8>>::new());
    assert_eq!(read, 0);
}

#[test]
fn start_byte_inside_a_frame_is_payload() {
    let (frames, _) = get_packet_bytes(vec![0xAB, 1, 0xAB, 2, 0xBC]);
    assert_eq!(frames, vec![vec![1, 0xAB, 2]]);
}

#[test]
fn escaped_byte_that_is_no_escape_code_is_kept() {
    let (frames, _) = get_packet_bytes(vec![0xAB, 0xCD, 0x41, 0xBC]);
    assert_eq!(frames, vec![vec![0x41]]);
}

#[test]
fn end_after_escape_closes_the_frame_and_clears_the_escape() {
    let (frames, _) = get_packet_bytes(vec![0xAB, 5, 0xCD, 0xBC, 0xAB, 0xAC, 0xBC]);
    assert_eq!(frames, vec![vec![5], vec![0xAC]]);
}

#[test]
fn escape_after_escape_stays_armed() {
    let (frames, _) = get_packet_bytes(vec![0xAB, 0xCD, 0xCD, 0xCE, 0xBC]);
    assert_eq!(frames, vec![vec![0xCD]]);
}

#[test]
fn unescape_maps_the_three_codes_back() {
    assert_eq!(unescape_byte(0xAC), 0xAB);
    assert_eq!(unescape_byte(0xBD), 0xBC);
    assert_eq!(unescape_byte(0xCE), 0xCD);
    assert_eq!(unescape_byte(0x00), 0x00);
    assert_eq!(unescape_byte(0xAB), 0xAB);
}

#[test]
fn add_bytes_to_slip_appends_one_or_two_bytes() {
    let mut wire: Vec<u8> = vec![0xAB];
    add_bytes_to_slip(&mut wire, 0x06);
    assert_eq!(wire, vec![0xAB, 0x06]);
    add_bytes_to_slip(&mut wire, 0xAB);
    assert_eq!(wire, vec![0xAB, 0x06, 0xCD, 0xAC]);
    add_bytes_to_slip(&mut wire, 0xBC);
    assert_eq!(wire, vec![0xAB, 0x06, 0xCD, 0xAC, 0xCD, 0xBD]);
    add_bytes_to_slip(&mut wire, 0xCD);
    assert_eq!(wire, vec![0xAB, 0x06, 0xCD, 0xAC, 0xCD, 0xBD, 0xCD, 0xCE]);
}

#[test]
fn decoder_keeps_its_state_between_pieces() {
    let mut decoder = FrameDecoder::new();
    assert_eq!(decoder.state, SlipState::AwaitingStart);
    assert_eq!(decoder.feed(&[0x00, 0xAB, 1, 2]), Vec::<Vec<u8>>::new());
    assert_eq!(decoder.state, SlipState::InFrame);
    assert_eq!(decoder.feed(&[3, 0xCD]), Vec::<Vec<u8>>::new());
    assert_eq!(decoder.state, SlipState::Escaped);
    assert_eq!(decoder.feed(&[0xBD, 4]), Vec::<Vec<u8>>::new());
    assert_eq!(decoder.state, SlipState::InFrame);
    assert_eq!(decoder.feed(&[0xBC, 0xAB, 9]), vec![vec![1, 2, 3, 0xBC, 4]]);
    assert_eq!(decoder.state, SlipState::InFrame);
    assert_eq!(decoder.feed(&[0xBC]), vec![vec![9]]);
    assert_eq!(decoder.state, SlipState::AwaitingStart);
}

#[test]
fn decoder_push_returns_the_frame_on_its_last_byte() {
    let mut decoder = FrameDecoder::new();
    assert_eq!(decoder.push(0x55), None);
    assert_eq!(decoder.push(0xAB), None);
    assert_eq!(decoder.push(0x55), None);
    assert_eq!(decoder.push(0xCD), None);
    assert_eq!(decoder.push(0xAC), None);
    assert_eq!(decoder.push(0xBC), Some(vec![0x55, 0xAB]));
    assert_eq!(decoder.push(0xBC), None);
}
