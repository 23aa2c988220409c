//! Ingestion pipeline: the decisions of the worker that owns the serial
//! connection.
//!
//! The worker alternates between work on the device and decisions. The work
//! on the device is not done here: the caller opens the device, writes, reads
//! and publishes, and reports each outcome as an event. `Pipeline::step` takes
//! the event and answers with the next thing to do. The frame decoder lives in
//! the pipeline, so a frame may span any number of reads.

use crate::command::{make_send_scan_bytes, make_send_tk_bytes, scan_command, temporary_key_command};
use crate::decode::decode_packet;
use crate::packet::{BlePacket, PacketModel};
use crate::slip::{frames, initial_decoder, run, views, DecoderModel, FrameDecoder};
use vstd::prelude::*;
use vstd::string::StringExecFns;

verus! {

/// Where the worker stands.
#[derive(Clone, Copy, Debug, PartialEq, Eq, Structural)]
pub enum PipelineState {
    /// The device is not open yet.
    Connecting,
    /// The device is open and configured; bytes are read from it.
    Streaming,
    /// A stop was requested. Nothing is read or published any more.
    Stopped,
}

/// What the caller reports to the pipeline.
#[derive(Clone, Debug, PartialEq, Eq)]
pub enum PipelineEvent {
    /// A stop request was found on the control channel.
    StopRequested,
    /// The device could not be opened.
    OpenFailed,
    /// The device was opened.
    Opened,
    /// A read returned these bytes.
    Received(Vec<u8>),
    /// A read failed.
    ReadFailed,
}

/// What the caller is to do next.
#[derive(Clone, Debug, PartialEq, Eq)]
pub enum PipelineAction {
    /// Wait for the backoff, then try to open the device.
    Connect,
    /// Write these command frames to the device, in this order, then read.
    Configure(Vec<Vec<u8>>),
    /// Read from the device.
    Read,
    /// Hand these packets to the consumer, in this order, then read.
    Publish(Vec<BlePacket>),
    /// Leave the loop.
    Halt,
}

/// Model of `PipelineAction`.
pub enum ActionModel {
    Connect,
    Configure(Seq<Seq<u8>>),
    Read,
    Publish(Seq<PacketModel>),
    Halt,
}

/// Model of `Pipeline`.
pub struct PipelineModel {
    pub state: PipelineState,
    pub decoder: DecoderModel,
}

/// The worker's state and its frame decoder.
pub struct Pipeline {
    pub state: PipelineState,
    pub decoder: FrameDecoder,
}

/// The models of a list of packets.
pub open spec fn packet_views(list: Seq<BlePacket>) -> Seq<PacketModel> {
    list.map_values(|packet: BlePacket| packet@)
}

impl View for PipelineAction {
    type V = ActionModel;

    open spec fn view(&self) -> ActionModel {
        match self {
            PipelineAction::Connect => ActionModel::Connect,
            PipelineAction::Configure(commands) => ActionModel::Configure(views(commands@)),
            PipelineAction::Read => ActionModel::Read,
            PipelineAction::Publish(packets) => ActionModel::Publish(packet_views(packets@)),
            PipelineAction::Halt => ActionModel::Halt,
        }
    }
}

impl View for Pipeline {
    type V = PipelineModel;

    open spec fn view(&self) -> PipelineModel {
        PipelineModel { state: self.state, decoder: self.decoder@ }
    }
}

/// The text of the one control message: the request to stop.
pub open spec fn stop_message() -> Seq<char> {
    "thread-stop"@
}

/// True if one of the control messages is the request to stop.
pub open spec fn holds_stop_request(messages: Seq<String>) -> bool {
    exists|i: int| 0 <= i < messages.len() && (#[trigger] messages[i])@ == stop_message()
}

/// The packets that are published of a list of frames: the packet decoded
/// from each frame that is valid, in the order of the frames.
pub open spec fn published(list: Seq<Seq<u8>>) -> Seq<PacketModel>
    decreases list.len(),
{
    if list.len() == 0 {
        Seq::empty()
    } else {
        let before = published(list.drop_last());
        let packet = decode_packet(list.last());
        if packet.valid {
            before.push(packet)
        } else {
            before
        }
    }
}

/// The command frames written to the device once it is open: the scan
/// configuration with every option off and packet counter 0, then the
/// temporary key of zeros with packet counter 1.
pub open spec fn opening_commands() -> Seq<Seq<u8>> {
    seq![scan_command(false, false, false, 0), temporary_key_command(0, 1)]
}

/// The pipeline before anything has happened.
pub open spec fn initial_pipeline() -> PipelineModel {
    PipelineModel { state: PipelineState::Connecting, decoder: initial_decoder() }
}

/// The pipeline after the event.
///
/// A stop request leads to `Stopped` from anywhere, and nothing leads out of
/// it. The device being opened leads from `Connecting` to `Streaming`. Bytes
/// received while streaming go through the frame decoder. Every other event
/// leaves the pipeline as it was.
pub open spec fn next_pipeline(m: PipelineModel, event: PipelineEvent) -> PipelineModel {
    match (m.state, event) {
        (PipelineState::Stopped, _) => m,
        (_, PipelineEvent::StopRequested) => PipelineModel {
            state: PipelineState::Stopped,
            decoder: m.decoder,
        },
        (PipelineState::Connecting, PipelineEvent::Opened) => PipelineModel {
            state: PipelineState::Streaming,
            decoder: m.decoder,
        },
        (PipelineState::Streaming, PipelineEvent::Received(bytes)) => PipelineModel {
            state: PipelineState::Streaming,
            decoder: run(m.decoder, bytes@),
        },
        _ => m,
    }
}

/// What the caller is to do after the event.
///
/// Once stopped, and on a stop request, the answer is to halt. The device
/// being opened is answered with the opening commands. Bytes received while
/// streaming are answered with the valid packets of the frames completed in
/// them. Otherwise the caller goes on with what the state asks for: another
/// attempt to open while connecting, another read while streaming.
pub open spec fn action_for(m: PipelineModel, event: PipelineEvent) -> ActionModel {
    match (m.state, event) {
        (PipelineState::Stopped, _) => ActionModel::Halt,
        (_, PipelineEvent::StopRequested) => ActionModel::Halt,
        (PipelineState::Connecting, PipelineEvent::Opened) => ActionModel::Configure(
            opening_commands(),
        ),
        (PipelineState::Connecting, _) => ActionModel::Connect,
        (PipelineState::Streaming, PipelineEvent::Received(bytes)) => ActionModel::Publish(
            published(frames(m.decoder, bytes@)),
        ),
        (PipelineState::Streaming, _) => ActionModel::Read,
    }
}

/// The pipeline after a series of events.
pub open spec fn pipeline_after(m: PipelineModel, events: Seq<PipelineEvent>) -> PipelineModel
    decreases events.len(),
{
    if events.len() == 0 {
        m
    } else {
        next_pipeline(pipeline_after(m, events.drop_last()), events.last())
    }
}

/// The answers to a series of events, one for each event.
pub open spec fn actions_for(m: PipelineModel, events: Seq<PipelineEvent>) -> Seq<ActionModel>
    decreases events.len(),
{
    if events.len() == 0 {
        Seq::empty()
    } else {
        actions_for(m, events.drop_last()).push(
            action_for(pipeline_after(m, events.drop_last()), events.last()),
        )
    }
}

/// Only valid packets are published, and each one was decoded from one of
/// the frames.
pub proof fn lemma_published_are_valid(list: Seq<Seq<u8>>)
    ensures
        published(list).len() <= list.len(),
        forall|i: int|
            0 <= i < published(list).len() ==> (#[trigger] published(list)[i]).valid && exists|
                j: int,
            |
                0 <= j < list.len() && published(list)[i] == decode_packet(#[trigger] list[j]),
    decreases list.len(),
{
    if list.len() > 0 {
        let head = list.drop_last();
        lemma_published_are_valid(head);
        assert forall|i: int| 0 <= i < published(list).len() implies (#[trigger] published(
            list,
        )[i]).valid && exists|j: int|
            0 <= j < list.len() && published(list)[i] == decode_packet(#[trigger] list[j]) by {
            if i < published(head).len() {
                assert(published(list)[i] == published(head)[i]);
                let j = choose|j: int|
                    0 <= j < head.len() && published(head)[i] == decode_packet(
                        #[trigger] head[j],
                    );
                assert(list[j] == head[j]);
            } else {
                assert(published(list)[i] == decode_packet(list[list.len() - 1]));
            }
        }
    }
}

/// Cancellation: once a stop request has been taken, the pipeline stays
/// stopped and every later event is answered with `Halt`, so no packet is
/// published any more, whatever bytes the device still delivers.
pub proof fn lemma_nothing_published_after_stop(m: PipelineModel, events: Seq<PipelineEvent>)
    ensures
        next_pipeline(m, PipelineEvent::StopRequested).state == PipelineState::Stopped,
        action_for(m, PipelineEvent::StopRequested) == ActionModel::Halt,
        pipeline_after(next_pipeline(m, PipelineEvent::StopRequested), events)
            == next_pipeline(m, PipelineEvent::StopRequested),
        forall|i: int|
            0 <= i < events.len() ==> #[trigger] actions_for(
                next_pipeline(m, PipelineEvent::StopRequested),
                events,
            )[i] == ActionModel::Halt,
        actions_for(next_pipeline(m, PipelineEvent::StopRequested), events).len() == events.len(),
    decreases events.len(),
{
    if events.len() > 0 {
        lemma_nothing_published_after_stop(m, events.drop_last());
    }
}

/// Tells whether one of the messages taken from the control channel is the
/// request to stop.
pub fn thread_should_stop(messages: &Vec<String>) -> (stop: bool)
    ensures
        stop == holds_stop_request(messages@),
{
    let wanted: String = String::from_str("thread-stop");
    let mut i: usize = 0;
    while i < messages.len()
        invariant
            i <= messages.len(),
            wanted@ == stop_message(),
            forall|k: int| 0 <= k < i ==> (#[trigger] messages@[k])@ != stop_message(),
        decreases messages.len() - i,
    {
        if messages[i].eq(&wanted) {
            return true;
        }
        i = i + 1;
    }
    false
}

/// Decodes each frame and keeps the packets that are valid, in the order of
/// the frames.
pub fn decode_valid_packets(list: &Vec<Vec<u8>>) -> (packets: Vec<BlePacket>)
    ensures
        packet_views(packets@) == published(views(list@)),
{
    let mut packets: Vec<BlePacket> = Vec::new();
    let mut i: usize = 0;
    assert(views(list@.subrange(0, 0)) =~= Seq::<Seq<u8>>::empty());
    assert(packet_views(packets@) =~= Seq::<PacketModel>::empty());
    while i < list.len()
        invariant
            i <= list.len(),
            packet_views(packets@) == published(views(list@.subrange(0, i as int))),
        decreases list.len() - i,
    {
        let ghost kept = packets@;
        let packet: BlePacket = BlePacket::from(&list[i]);
        proof {
            let upto = views(list@.subrange(0, i + 1));
            assert(upto.drop_last() =~= views(list@.subrange(0, i as int)));
            assert(upto.last() == list@[i as int]@);
        }
        if packet.valid {
            packets.push(packet);
            assert(packet_views(packets@) =~= packet_views(kept).push(packet@));
        }
        i = i + 1;
    }
    assert(list@.subrange(0, i as int) =~= list@);
    packets
}

impl Pipeline {
    /// A pipeline that has not opened the device yet.
    pub fn new() -> (pipeline: Pipeline)
        ensures
            pipeline@ == initial_pipeline(),
    {
        Pipeline { state: PipelineState::Connecting, decoder: FrameDecoder::new() }
    }

    /// Takes the outcome of what the caller did and answers with what it is
    /// to do next.
    pub fn step(&mut self, event: PipelineEvent) -> (action: PipelineAction)
        ensures
            final(self)@ == next_pipeline(old(self)@, event),
            action@ == action_for(old(self)@, event),
    {
        match self.state {
            PipelineState::Stopped => PipelineAction::Halt,
            PipelineState::Connecting => match event {
                PipelineEvent::StopRequested => {
                    self.state = PipelineState::Stopped;
                    PipelineAction::Halt
                },
                PipelineEvent::Opened => {
                    self.state = PipelineState::Streaming;
                    let mut commands: Vec<Vec<u8>> = Vec::new();
                    commands.push(make_send_scan_bytes(false, false, false, 0));
                    commands.push(make_send_tk_bytes(0, 1));
                    assert(views(commands@) =~= opening_commands());
                    PipelineAction::Configure(commands)
                },
                _ => PipelineAction::Connect,
            },
            PipelineState::Streaming => match event {
                PipelineEvent::StopRequested => {
                    self.state = PipelineState::Stopped;
                    PipelineAction::Halt
                },
                PipelineEvent::Received(bytes) => {
                    let done: Vec<Vec<u8>> = self.decoder.feed(bytes.as_slice());
                    PipelineAction::Publish(decode_valid_packets(&done))
                },
                _ => PipelineAction::Read,
            },
        }
    }
}

} // verus!
