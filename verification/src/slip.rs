//! Frame codec: delimits and byte-stuffs frames in a continuous byte stream.
//!
//! A frame travels as `SLIP_START`, the stuffed payload, `SLIP_END`. A payload
//! byte that equals one of the three reserved values is sent as `SLIP_ESC`
//! followed by the value plus one. The decoder is a state machine that is fed
//! one byte at a time and keeps its state between calls, so a frame may
//! arrive in any number of pieces.

use crate::protocol::{SLIP_END, SLIP_ESC, SLIP_ESC_END, SLIP_ESC_ESC, SLIP_ESC_START, SLIP_START};
use vstd::prelude::*;

verus! {

/// Where the decoder stands between two bytes.
#[derive(Clone, Copy, Debug, PartialEq, Eq, Structural)]
pub enum SlipState {
    /// No frame is open: bytes are discarded until `SLIP_START` arrives.
    AwaitingStart,
    /// A frame is open and the next byte is read as it stands.
    InFrame,
    /// A frame is open and the previous byte was `SLIP_ESC`.
    Escaped,
}

/// The decoder as a mathematical value: its state and the payload bytes
/// gathered so far for the frame that is open.
pub struct DecoderModel {
    pub state: SlipState,
    pub buffer: Seq<u8>,
}

/// True for the three byte values that cannot travel as they are.
pub open spec fn is_reserved(b: u8) -> bool {
    b == SLIP_START || b == SLIP_END || b == SLIP_ESC
}

/// The payload byte that a byte following `SLIP_ESC` stands for.
pub open spec fn unescape(b: u8) -> u8 {
    if b == SLIP_ESC_START {
        SLIP_START
    } else if b == SLIP_ESC_END {
        SLIP_END
    } else if b == SLIP_ESC_ESC {
        SLIP_ESC
    } else {
        b
    }
}

/// The wire bytes of one payload byte.
pub open spec fn escape_byte(b: u8) -> Seq<u8> {
    if is_reserved(b) {
        seq![SLIP_ESC, (b + 1) as u8]
    } else {
        seq![b]
    }
}

/// The wire bytes of a payload, without the delimiters.
pub open spec fn escape(payload: Seq<u8>) -> Seq<u8>
    decreases payload.len(),
{
    if payload.len() == 0 {
        Seq::empty()
    } else {
        escape(payload.drop_last()) + escape_byte(payload.last())
    }
}

/// The wire bytes of a whole frame that carries `payload`.
pub open spec fn encode_frame_spec(payload: Seq<u8>) -> Seq<u8> {
    seq![SLIP_START] + escape(payload) + seq![SLIP_END]
}

/// The decoder before any byte has arrived.
pub open spec fn initial_decoder() -> DecoderModel {
    DecoderModel { state: SlipState::AwaitingStart, buffer: Seq::empty() }
}

/// The decoder after it has taken the byte `b`.
///
/// Outside a frame only `SLIP_START` has an effect. Inside a frame `SLIP_END`
/// closes the frame and `SLIP_ESC` arms the escape, whether or not an escape
/// was already armed; any other byte is appended, unescaped if an escape was
/// armed.
pub open spec fn step(m: DecoderModel, b: u8) -> DecoderModel {
    match m.state {
        SlipState::AwaitingStart => if b == SLIP_START {
            DecoderModel { state: SlipState::InFrame, buffer: Seq::empty() }
        } else {
            m
        },
        SlipState::InFrame => if b == SLIP_END {
            initial_decoder()
        } else if b == SLIP_ESC {
            DecoderModel { state: SlipState::Escaped, buffer: m.buffer }
        } else {
            DecoderModel { state: SlipState::InFrame, buffer: m.buffer.push(b) }
        },
        SlipState::Escaped => if b == SLIP_END {
            initial_decoder()
        } else if b == SLIP_ESC {
            DecoderModel { state: SlipState::Escaped, buffer: m.buffer }
        } else {
            DecoderModel { state: SlipState::InFrame, buffer: m.buffer.push(unescape(b)) }
        },
    }
}

/// The frame that the byte `b` completes, if it completes one.
pub open spec fn emitted(m: DecoderModel, b: u8) -> Option<Seq<u8>> {
    if m.state != SlipState::AwaitingStart && b == SLIP_END {
        Some(m.buffer)
    } else {
        None
    }
}

/// The decoder after it has taken all of `bytes`, one after the other.
pub open spec fn run(m: DecoderModel, bytes: Seq<u8>) -> DecoderModel
    decreases bytes.len(),
{
    if bytes.len() == 0 {
        m
    } else {
        step(run(m, bytes.drop_last()), bytes.last())
    }
}

/// The frames completed while the decoder takes `bytes`, oldest first.
pub open spec fn frames(m: DecoderModel, bytes: Seq<u8>) -> Seq<Seq<u8>>
    decreases bytes.len(),
{
    if bytes.len() == 0 {
        Seq::empty()
    } else {
        let before = frames(m, bytes.drop_last());
        match emitted(run(m, bytes.drop_last()), bytes.last()) {
            Some(frame) => before.push(frame),
            None => before,
        }
    }
}

/// The contents of a list of byte vectors.
pub open spec fn views(list: Seq<Vec<u8>>) -> Seq<Seq<u8>> {
    list.map_values(|frame: Vec<u8>| frame@)
}

/// Feeding `a + b` is feeding `a` and then `b`.
pub proof fn lemma_run_concat(m: DecoderModel, a: Seq<u8>, b: Seq<u8>)
    ensures
        run(m, a + b) == run(run(m, a), b),
        frames(m, a + b) == frames(m, a) + frames(run(m, a), b),
    decreases b.len(),
{
    if b.len() == 0 {
        assert(a + b =~= a);
        assert(frames(m, a) + Seq::<Seq<u8>>::empty() =~= frames(m, a));
    } else {
        lemma_run_concat(m, a, b.drop_last());
        assert((a + b).drop_last() =~= a + b.drop_last());
        assert((a + b).last() == b.last());
        let mid = run(m, a);
        match emitted(run(mid, b.drop_last()), b.last()) {
            Some(frame) => {
                assert(frames(m, a + b) =~= frames(m, a) + frames(mid, b));
            },
            None => {},
        }
    }
}

/// Feeding a single byte is one step of the machine.
pub proof fn lemma_run_one(m: DecoderModel, b: u8)
    ensures
        run(m, seq![b]) == step(m, b),
        frames(m, seq![b]) == match emitted(m, b) {
            Some(frame) => seq![frame],
            None => Seq::<Seq<u8>>::empty(),
        },
{
    let one = seq![b];
    assert(one.drop_last() =~= Seq::<u8>::empty());
    assert(run(m, one.drop_last()) == m);
    assert(frames(m, one.drop_last()) =~= Seq::<Seq<u8>>::empty());
    match emitted(m, b) {
        Some(frame) => {
            assert(frames(m, one) =~= seq![frame]);
        },
        None => {},
    }
}

/// A decoder with an open frame that is fed the stuffed form of `payload`
/// completes no frame and has `payload` appended to what it had gathered.
pub proof fn lemma_run_escape(buffer: Seq<u8>, payload: Seq<u8>)
    ensures
        run(DecoderModel { state: SlipState::InFrame, buffer }, escape(payload)) == (DecoderModel {
            state: SlipState::InFrame,
            buffer: buffer + payload,
        }),
        frames(DecoderModel { state: SlipState::InFrame, buffer }, escape(payload))
            == Seq::<Seq<u8>>::empty(),
    decreases payload.len(),
{
    let m = DecoderModel { state: SlipState::InFrame, buffer };
    if payload.len() == 0 {
        assert(buffer + payload =~= buffer);
    } else {
        let head = payload.drop_last();
        let b = payload.last();
        lemma_run_escape(buffer, head);
        lemma_run_concat(m, escape(head), escape_byte(b));
        let mid = DecoderModel { state: SlipState::InFrame, buffer: buffer + head };
        assert(run(m, escape(head)) == mid);
        assert(buffer + payload =~= (buffer + head).push(b));
        let wire = escape_byte(b);
        if is_reserved(b) {
            let armed = step(mid, SLIP_ESC);
            assert(wire =~= seq![SLIP_ESC] + seq![(b + 1) as u8]);
            lemma_run_one(mid, SLIP_ESC);
            lemma_run_one(armed, (b + 1) as u8);
            lemma_run_concat(mid, seq![SLIP_ESC], seq![(b + 1) as u8]);
            assert(unescape((b + 1) as u8) == b);
        } else {
            lemma_run_one(mid, b);
        }
        assert(frames(mid, wire) =~= Seq::<Seq<u8>>::empty());
        assert(frames(m, escape(payload)) =~= Seq::<Seq<u8>>::empty());
    }
}

/// Round trip of the codec: a decoder that waits for a frame and is fed the
/// wire bytes of any payload completes exactly one frame, which is that
/// payload, and waits for the next frame afterwards.
pub proof fn lemma_encode_then_decode(payload: Seq<u8>)
    ensures
        frames(initial_decoder(), encode_frame_spec(payload)) == seq![payload],
        run(initial_decoder(), encode_frame_spec(payload)) == initial_decoder(),
{
    let init = initial_decoder();
    let open = DecoderModel { state: SlipState::InFrame, buffer: Seq::empty() };
    let full = DecoderModel { state: SlipState::InFrame, buffer: payload };
    let start = seq![SLIP_START];
    let end = seq![SLIP_END];
    lemma_run_one(init, SLIP_START);
    lemma_run_escape(Seq::empty(), payload);
    assert(Seq::<u8>::empty() + payload =~= payload);
    lemma_run_concat(init, start, escape(payload));
    assert(run(init, start + escape(payload)) == full);
    assert(frames(init, start + escape(payload)) =~= Seq::<Seq<u8>>::empty());
    lemma_run_concat(init, start + escape(payload), end);
    lemma_run_one(full, SLIP_END);
    assert(frames(init, encode_frame_spec(payload)) =~= seq![payload]);
}

/// The stuffed form of a payload never holds a delimiter, so a frame on the
/// wire holds `SLIP_START` and `SLIP_END` at its two ends only.
pub proof fn lemma_escape_has_no_delimiter(payload: Seq<u8>)
    ensures
        forall|i: int|
            0 <= i < escape(payload).len() ==> escape(payload)[i] != SLIP_START && escape(
                payload,
            )[i] != SLIP_END,
    decreases payload.len(),
{
    if payload.len() > 0 {
        let head = escape(payload.drop_last());
        let tail = escape_byte(payload.last());
        lemma_escape_has_no_delimiter(payload.drop_last());
        assert forall|i: int| 0 <= i < escape(payload).len() implies escape(payload)[i]
            != SLIP_START && escape(payload)[i] != SLIP_END by {
            if i >= head.len() {
                assert(escape(payload)[i] == tail[i - head.len()]);
            }
        }
    }
}

/// Incremental frame decoder. Its state outlives each call, so the bytes of
/// a frame may be handed over in any number of pieces.
pub struct FrameDecoder {
    pub state: SlipState,
    pub buffer: Vec<u8>,
}

impl View for FrameDecoder {
    type V = DecoderModel;

    open spec fn view(&self) -> DecoderModel {
        DecoderModel { state: self.state, buffer: self.buffer@ }
    }
}

impl FrameDecoder {
    /// A decoder that waits for the first frame.
    pub fn new() -> (decoder: FrameDecoder)
        ensures
            decoder@ == initial_decoder(),
    {
        FrameDecoder { state: SlipState::AwaitingStart, buffer: Vec::new() }
    }

    /// Takes one byte from the stream and returns the frame that it
    /// completes, if it completes one.
    pub fn push(&mut self, b: u8) -> (frame: Option<Vec<u8>>)
        ensures
            final(self)@ == step(old(self)@, b),
            match frame {
                Some(bytes) => emitted(old(self)@, b) == Some(bytes@),
                None => emitted(old(self)@, b) is None,
            },
    {
        match self.state {
            SlipState::AwaitingStart => {
                if b == SLIP_START {
                    self.state = SlipState::InFrame;
                    self.buffer = Vec::new();
                }
                None
            },
            SlipState::InFrame => {
                if b == SLIP_END {
                    self.state = SlipState::AwaitingStart;
                    let mut done: Vec<u8> = Vec::new();
                    std::mem::swap(&mut self.buffer, &mut done);
                    Some(done)
                } else if b == SLIP_ESC {
                    self.state = SlipState::Escaped;
                    None
                } else {
                    self.buffer.push(b);
                    None
                }
            },
            SlipState::Escaped => {
                if b == SLIP_END {
                    self.state = SlipState::AwaitingStart;
                    let mut done: Vec<u8> = Vec::new();
                    std::mem::swap(&mut self.buffer, &mut done);
                    Some(done)
                } else if b == SLIP_ESC {
                    None
                } else {
                    self.state = SlipState::InFrame;
                    self.buffer.push(unescape_byte(b));
                    None
                }
            },
        }
    }

    /// Takes a piece of the stream and returns the frames completed in it,
    /// oldest first. A frame left open at the end of the piece is kept for
    /// the next call.
    pub fn feed(&mut self, bytes: &[u8]) -> (done: Vec<Vec<u8>>)
        ensures
            final(self)@ == run(old(self)@, bytes@),
            views(done@) == frames(old(self)@, bytes@),
    {
        let mut done: Vec<Vec<u8>> = Vec::new();
        let mut i: usize = 0;
        assert(bytes@.subrange(0, 0) =~= Seq::<u8>::empty());
        assert(views(done@) =~= Seq::<Seq<u8>>::empty());
        while i < bytes.len()
            invariant
                i <= bytes.len(),
                self@ == run(old(self)@, bytes@.subrange(0, i as int)),
                views(done@) == frames(old(self)@, bytes@.subrange(0, i as int)),
            decreases bytes.len() - i,
        {
            let ghost listed = done@;
            let b: u8 = bytes[i];
            let frame: Option<Vec<u8>> = self.push(b);
            proof {
                let upto = bytes@.subrange(0, i + 1);
                assert(upto.drop_last() =~= bytes@.subrange(0, i as int));
                assert(upto.last() == b);
            }
            match frame {
                Some(payload) => {
                    done.push(payload);
                    assert(views(done@) =~= views(listed).push(payload@));
                },
                None => {},
            }
            i = i + 1;
        }
        assert(bytes@.subrange(0, i as int) =~= bytes@);
        done
    }
}

/// The payload byte that the byte after an escape marker stands for.
pub fn unescape_byte(b: u8) -> (plain: u8)
    ensures
        plain == unescape(b),
{
    if b == SLIP_ESC_START {
        SLIP_START
    } else if b == SLIP_ESC_END {
        SLIP_END
    } else if b == SLIP_ESC_ESC {
        SLIP_ESC
    } else {
        b
    }
}

/// Splits a piece of the stream into the frames that are complete in it.
///
/// Returns the unescaped payload of each frame, oldest first, and the number
/// of bytes read, which is the length of the input. Bytes outside frames and
/// a frame left open at the end are dropped.
pub fn get_packet_bytes(bytes: Vec<u8>) -> (result: (Vec<Vec<u8>>, usize))
    ensures
        views(result.0@) == frames(initial_decoder(), bytes@),
        result.1 == bytes@.len(),
{
    let mut decoder: FrameDecoder = FrameDecoder::new();
    let done: Vec<Vec<u8>> = decoder.feed(bytes.as_slice());
    (done, bytes.len())
}

/// Appends the wire form of one payload byte to a frame under construction.
pub fn add_bytes_to_slip(packet_bytes: &mut Vec<u8>, content_byte: u8)
    ensures
        final(packet_bytes)@ == old(packet_bytes)@ + escape_byte(content_byte),
{
    if content_byte == SLIP_START || content_byte == SLIP_END || content_byte == SLIP_ESC {
        packet_bytes.push(SLIP_ESC);
        packet_bytes.push(content_byte + 1);
    } else {
        packet_bytes.push(content_byte);
    }
    assert(packet_bytes@ =~= old(packet_bytes)@ + escape_byte(content_byte));
}

/// Builds the wire bytes of a frame that carries `payload`. A decoder that
/// waits for a frame and is fed these bytes gives back `payload`.
pub fn encode_frame(payload: &[u8]) -> (wire: Vec<u8>)
    ensures
        wire@ == encode_frame_spec(payload@),
        frames(initial_decoder(), wire@) == seq![payload@],
{
    let mut wire: Vec<u8> = Vec::new();
    wire.push(SLIP_START);
    let mut i: usize = 0;
    assert(payload@.subrange(0, 0) =~= Seq::<u8>::empty());
    assert(wire@ =~= seq![SLIP_START] + escape(Seq::<u8>::empty()));
    while i < payload.len()
        invariant
            i <= payload.len(),
            wire@ == seq![SLIP_START] + escape(payload@.subrange(0, i as int)),
        decreases payload.len() - i,
    {
        let b: u8 = payload[i];
        add_bytes_to_slip(&mut wire, b);
        proof {
            let upto = payload@.subrange(0, i + 1);
            assert(upto.drop_last() =~= payload@.subrange(0, i as int));
            assert(upto.last() == b);
            assert(wire@ =~= seq![SLIP_START] + escape(upto));
        }
        i = i + 1;
    }
    assert(payload@.subrange(0, i as int) =~= payload@);
    wire.push(SLIP_END);
    assert(wire@ =~= encode_frame_spec(payload@));
    proof {
        lemma_encode_then_decode(payload@);
    }
    wire
}

} // verus!
