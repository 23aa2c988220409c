use ble_sniffer::ingest::{
    decode_valid_packets, thread_should_stop, Pipeline, PipelineAction, PipelineEvent,
    PipelineState,
};
use ble_sniffer::packet::{BleLLNonConnIndMsg, BleLLPayload, BlePacket};
use ble_sniffer::slip::{encode_frame, SlipState};

fn zero_advertisement() -> Vec<u8> {
    let mut frame: Vec<u8> = vec![0; 28];
    frame[0] = 6;
    frame[19] = 0x02;
    frame
}

fn streaming_pipeline() -> Pipeline {
    let mut pipeline = Pipeline::new();
    pipeline.step(PipelineEvent::Opened);
    pipeline
}

#[test]
fn stop_message_is_recognised() {
    assert!(thread_should_stop(&vec![String::from("thread-stop")]));
    assert!(thread_should_stop(&vec![
        String::from("hello"),
        String::from("thread-stop"),
        String::from("more"),
    ]));
}

#[test]
fn other_messages_do_not_stop() {
    assert!(!thread_should_stop(&Vec::new()));
    assert!(!thread_should_stop(&vec![
        String::from("thread-stop "),
        String::from("Thread-Stop"),
        String::from("stop"),
        String::new(),
    ]));
}

#[test]
fn pipeline_starts_connecting() {
    let pipeline = Pipeline::new();
    assert_eq!(pipeline.state, PipelineState::Connecting);
    assert_eq!(pipeline.decoder.state, SlipState::AwaitingStart);
}

#[test]
fn failed_open_is_tried_again() {
    let mut pipeline = Pipeline::new();
    assert_eq!(pipeline.step(PipelineEvent::OpenFailed), PipelineAction::Connect);
    assert_eq!(pipeline.state, PipelineState::Connecting);
    assert_eq!(pipeline.step(PipelineEvent::ReadFailed), PipelineAction::Connect);
    assert_eq!(pipeline.step(PipelineEvent::Received(vec![0xAB, 6, 0xBC])), PipelineAction::Connect);
    assert_eq!(pipeline.state, PipelineState::Connecting);
    assert_eq!(pipeline.decoder.state, SlipState::AwaitingStart);
}

#[test]
fn opening_sends_the_two_commands_once() {
    let mut pipeline = Pipeline::new();
    let mut key: Vec<u8> = vec![0xAB, 0x06, 0x10, 0x01, 0x01, 0x00, 0x0C];
    key.extend_from_slice(&[0u8; 16]);
    key.push(0xBC);
    assert_eq!(
        pipeline.step(PipelineEvent::Opened),
        PipelineAction::Configure(vec![
            vec![0xAB, 0x06, 0x01, 0x01, 0x00, 0x00, 0x07, 0x00, 0xBC],
            key,
        ])
    );
    assert_eq!(pipeline.state, PipelineState::Streaming);
    assert_eq!(pipeline.step(PipelineEvent::Opened), PipelineAction::Read);
    assert_eq!(pipeline.step(PipelineEvent::OpenFailed), PipelineAction::Read);
    assert_eq!(pipeline.state, PipelineState::Streaming);
}

#[test]
fn failed_read_is_not_fatal() {
    let mut pipeline = streaming_pipeline();
    assert_eq!(pipeline.step(PipelineEvent::ReadFailed), PipelineAction::Read);
    assert_eq!(pipeline.state, PipelineState::Streaming);
}

#[test]
fn zero_advertisement_on_the_wire_is_published_once() {
    let mut wire: Vec<u8> = vec![0xAB];
    wire.extend_from_slice(&zero_advertisement());
    wire.push(0xBC);
    let mut pipeline = streaming_pipeline();
    match pipeline.step(PipelineEvent::Received(wire)) {
        PipelineAction::Publish(packets) => {
            assert_eq!(packets.len(), 1);
            assert!(packets[0].valid);
            assert_eq!(
                packets[0].ll_layer_data.payload,
                BleLLPayload::NonConnInd(BleLLNonConnIndMsg::new())
            );
        }
        other => panic!("nothing published: {:?}", other),
    }
    assert_eq!(pipeline.state, PipelineState::Streaming);
    assert_eq!(
        pipeline.step(PipelineEvent::Received(Vec::new())),
        PipelineAction::Publish(Vec::new())
    );
}

#[test]
fn frame_may_span_several_reads() {
    let wire = encode_frame(&zero_advertisement());
    let mut pipeline = streaming_pipeline();
    assert_eq!(
        pipeline.step(PipelineEvent::Received(wire[..10].to_vec())),
        PipelineAction::Publish(Vec::new())
    );
    assert_eq!(pipeline.step(PipelineEvent::ReadFailed), PipelineAction::Read);
    assert_eq!(
        pipeline.step(PipelineEvent::Received(wire[10..].to_vec())),
        PipelineAction::Publish(vec![BlePacket::from(&zero_advertisement())])
    );
}

#[test]
fn only_valid_packets_are_published() {
    let good = zero_advertisement();
    let mut bad_header = zero_advertisement();
    bad_header[0] = 5;
    let mut bad_scan = zero_advertisement();
    bad_scan[19] = 0x03;
    let truncated: Vec<u8> = good[..20].to_vec();
    let mut wire: Vec<u8> = Vec::new();
    for frame in [&bad_header, &good, &bad_scan, &truncated, &good] {
        wire.extend_from_slice(&encode_frame(frame));
    }
    wire.extend_from_slice(&[0xAB, 0xBC]);
    let mut pipeline = streaming_pipeline();
    let expected = BlePacket::from(&good);
    assert_eq!(
        pipeline.step(PipelineEvent::Received(wire)),
        PipelineAction::Publish(vec![expected.clone(), expected])
    );
}

#[test]
fn decode_valid_packets_keeps_the_order_of_the_frames() {
    let mut first = zero_advertisement();
    first[2] = 1;
    let mut second = zero_advertisement();
    second[2] = 2;
    let packets = decode_valid_packets(&vec![first, vec![1, 2, 3], second, Vec::new()]);
    assert_eq!(packets.len(), 2);
    assert_eq!(packets[0].protocol_version, 1);
    assert_eq!(packets[1].protocol_version, 2);
}

#[test]
fn stop_request_halts_from_every_state() {
    let mut connecting = Pipeline::new();
    assert_eq!(connecting.step(PipelineEvent::StopRequested), PipelineAction::Halt);
    assert_eq!(connecting.state, PipelineState::Stopped);
    let mut streaming = streaming_pipeline();
    assert_eq!(streaming.step(PipelineEvent::StopRequested), PipelineAction::Halt);
    assert_eq!(streaming.state, PipelineState::Stopped);
    assert_eq!(streaming.step(PipelineEvent::StopRequested), PipelineAction::Halt);
    assert_eq!(streaming.state, PipelineState::Stopped);
}

#[test]
fn nothing_is_published_after_a_stop_request() {
    let wire = encode_frame(&zero_advertisement());
    let mut pipeline = streaming_pipeline();
    assert_eq!(
        pipeline.step(PipelineEvent::Received(wire[..10].to_vec())),
        PipelineAction::Publish(Vec::new())
    );
    assert_eq!(pipeline.step(PipelineEvent::StopRequested), PipelineAction::Halt);
    assert_eq!(pipeline.step(PipelineEvent::Received(wire[10..].to_vec())), PipelineAction::Halt);
    assert_eq!(pipeline.step(PipelineEvent::Received(wire)), PipelineAction::Halt);
    assert_eq!(pipeline.step(PipelineEvent::Opened), PipelineAction::Halt);
    assert_eq!(pipeline.step(PipelineEvent::OpenFailed), PipelineAction::Halt);
    assert_eq!(pipeline.step(PipelineEvent::ReadFailed), PipelineAction::Halt);
    assert_eq!(pipeline.state, PipelineState::Stopped);
}
