//! Framing and the writer discipline.
//!
//! Every unit of wire traffic is a frame: a 16-bit tag, a 32-bit payload
//! length, then exactly that many payload bytes, all integers big-endian.
//! Voice packets ride in a specially built tunnel frame whose body carries a
//! target selector byte, the packet's sequence number and payload length as
//! varints, and the compressed audio. The writer owns the outbound half of
//! the connection: it sequences voice packets with a process-lifetime
//! counter and synthesizes a keepalive ping after fifteen seconds of
//! outbound silence, a deadline every real message pushes back.

use vstd::prelude::*;

use crate::messages::{msg_payload, msg_tag, type_tag, MumbleMsg, MumbleType};
use crate::varint::{varint_bytes, varint_encode};

verus! {

/// Milliseconds of outbound silence after which a keepalive ping is owed.
pub const KEEPALIVE_MS: u64 = 15_000;

/// The largest compressed audio payload a voice frame may carry.
pub const MAX_VOICE_FRAME_BYTES: usize = 1020;

/// The voice-frame body's first byte: packet type and target selector.
pub const VOICE_TYPE_TARGET: u8 = 128;

/// A 16-bit integer in big-endian byte order.
pub open spec fn be16(v: u16) -> Seq<u8> {
    seq![(v >> 8) as u8, (v & 0xFF) as u8]
}

/// A 32-bit integer in big-endian byte order.
pub open spec fn be32(v: u32) -> Seq<u8> {
    seq![(v >> 24) as u8, ((v >> 16) & 0xFF) as u8, ((v >> 8) & 0xFF) as u8, (v & 0xFF) as u8]
}

/// One whole frame: tag, payload length, payload.
pub open spec fn frame_bytes(tag: u16, payload: Seq<u8>) -> Seq<u8>
    recommends
        payload.len() <= 0xFFFFFFFF,
{
    be16(tag) + be32(payload.len() as u32) + payload
}

/// The body of a voice frame: target selector, sequence number and audio
/// length as varints, then the compressed audio itself.
pub open spec fn voice_body(seq_nr: u64, audio: Seq<u8>) -> Seq<u8> {
    seq![VOICE_TYPE_TARGET] + varint_bytes(seq_nr) + varint_bytes(audio.len() as u64) + audio
}

/// The whole wire frame of one voice packet.
pub open spec fn voice_frame_bytes(seq_nr: u64, audio: Seq<u8>) -> Seq<u8> {
    frame_bytes(type_tag(MumbleType::UDPTunnel), voice_body(seq_nr, audio))
}

/// The keepalive frame: a ping message whose schema payload is empty.
pub open spec fn ping_frame_bytes() -> Seq<u8> {
    frame_bytes(type_tag(MumbleType::Ping), Seq::empty())
}

/// Append `src` to `dst` element by element.
fn append_bytes(dst: &mut Vec<u8>, src: &Vec<u8>)
    ensures
        final(dst)@ == old(dst)@ + src@,
{
    let n = src.len();
    for i in 0..n
        invariant
            n == src@.len(),
            dst@ == old(dst)@ + src@.take(i as int),
    {
        dst.push(src[i]);
        assert(dst@ =~= old(dst)@ + src@.take(i as int + 1));
    }
    assert(dst@ =~= old(dst)@ + src@);
}

/// Build one frame from a tag and its payload.
pub fn encode_frame(tag: u16, payload: &Vec<u8>) -> (out: Vec<u8>)
    requires
        payload@.len() <= 0xFFFFFFFF,
    ensures
        out@ == frame_bytes(tag, payload@),
{
    let mut out: Vec<u8> = Vec::new();
    out.push((tag >> 8) as u8);
    out.push((tag & 0xFF) as u8);
    let len: u32 = payload.len() as u32;
    out.push((len >> 24) as u8);
    out.push(((len >> 16) & 0xFF) as u8);
    out.push(((len >> 8) & 0xFF) as u8);
    out.push((len & 0xFF) as u8);
    append_bytes(&mut out, payload);
    assert(out@ =~= frame_bytes(tag, payload@));
    out
}

/// Read a frame header back: the tag and the payload length it announces.
/// `None` when fewer than the six header bytes are present.
pub fn parse_frame_header(hdr: &Vec<u8>) -> (r: Option<(u16, u32)>)
    ensures
        match r {
            Some((tag, len)) => {
                &&& hdr@.len() >= 6
                &&& be16(tag) == hdr@.subrange(0, 2)
                &&& be32(len) == hdr@.subrange(2, 6)
            },
            None => hdr@.len() < 6,
        },
{
    if hdr.len() < 6 {
        return None;
    }
    let tag: u16 = ((hdr[0] as u16) << 8u16) | (hdr[1] as u16);
    let len: u32 = ((hdr[2] as u32) << 24u32) | ((hdr[3] as u32) << 16u32) | ((hdr[4] as u32)
        << 8u32) | (hdr[5] as u32);
    proof {
        let b0 = hdr@[0];
        let b1 = hdr@[1];
        assert({
            let t = (((b0 as u16) << 8) | (b1 as u16));
            (t >> 8) as u8 == b0 && (t & 0xFF) as u8 == b1
        }) by (bit_vector);
        assert(be16(tag) =~= hdr@.subrange(0, 2));
        let c0 = hdr@[2];
        let c1 = hdr@[3];
        let c2 = hdr@[4];
        let c3 = hdr@[5];
        assert({
            let l = ((c0 as u32) << 24) | ((c1 as u32) << 16) | ((c2 as u32) << 8) | (c3 as u32);
            (l >> 24) as u8 == c0 && ((l >> 16) & 0xFF) as u8 == c1 && ((l >> 8) & 0xFF) as u8
                == c2 && (l & 0xFF) as u8 == c3
        }) by (bit_vector);
        assert(be32(len) =~= hdr@.subrange(2, 6));
    }
    Some((tag, len))
}

/// Writing a frame and reading its header back give the tag and length the
/// frame was written with.
pub proof fn lemma_frame_header_round_trip(tag: u16, payload: Seq<u8>)
    requires
        payload.len() <= 0xFFFFFFFF,
    ensures
        frame_bytes(tag, payload).subrange(0, 2) == be16(tag),
        frame_bytes(tag, payload).subrange(2, 6) == be32(payload.len() as u32),
        frame_bytes(tag, payload).skip(6) == payload,
{
    let f = frame_bytes(tag, payload);
    assert(f.subrange(0, 2) =~= be16(tag));
    assert(f.subrange(2, 6) =~= be32(payload.len() as u32));
    assert(f.skip(6) =~= payload);
}

/// The writer's state: the voice-packet sequence counter, which starts at
/// zero and never resets within a process, and the keepalive deadline.
pub struct Writer {
    /// Sequence number the next voice packet will carry.
    pub seq_nr: u64,
    /// Time in milliseconds at which, with no outbound traffic before it,
    /// a keepalive ping falls due.
    pub deadline_ms: u64,
}

/// The bytes the writer puts on the wire for one outbound message.
pub open spec fn outbound_bytes(w: Writer, m: MumbleMsg) -> Seq<u8> {
    if m is UDPTunnel {
        voice_frame_bytes(w.seq_nr, msg_payload(m))
    } else {
        frame_bytes(type_tag(msg_tag(m)), msg_payload(m))
    }
}

/// The writer's state after it has sent one real message at `now_ms`.
pub open spec fn writer_step_message(w: Writer, m: MumbleMsg, now_ms: u64) -> Writer {
    Writer {
        seq_nr: if m is UDPTunnel {
            (w.seq_nr + 1) as u64
        } else {
            w.seq_nr
        },
        deadline_ms: (now_ms + KEEPALIVE_MS) as u64,
    }
}

/// Whether a timer poll at `now_ms` finds a keepalive due.
pub open spec fn timer_fires(w: Writer, now_ms: u64) -> bool {
    now_ms >= w.deadline_ms
}

/// The writer's state after a timer poll at `now_ms`.
pub open spec fn writer_step_timer(w: Writer, now_ms: u64) -> Writer {
    if timer_fires(w, now_ms) {
        Writer { seq_nr: w.seq_nr, deadline_ms: (now_ms + KEEPALIVE_MS) as u64 }
    } else {
        w
    }
}

impl Writer {
    /// A fresh writer: sequencing starts at zero, the first keepalive falls
    /// due one interval after startup.
    pub fn new(now_ms: u64) -> (w: Writer)
        requires
            now_ms + KEEPALIVE_MS <= u64::MAX,
        ensures
            w.seq_nr == 0,
            w.deadline_ms == now_ms + KEEPALIVE_MS,
    {
        Writer { seq_nr: 0, deadline_ms: now_ms + KEEPALIVE_MS }
    }

    /// Frame one real outbound message at time `now_ms`: a voice packet is
    /// framed with the current sequence number, which then advances by
    /// exactly one; any other message is framed plainly. Either way the
    /// keepalive deadline moves one whole interval past `now_ms`.
    pub fn on_message(&mut self, msg: &MumbleMsg, now_ms: u64) -> (out: Vec<u8>)
        requires
            now_ms + KEEPALIVE_MS <= u64::MAX,
            msg matches MumbleMsg::UDPTunnel(_) ==> old(self).seq_nr < u64::MAX
                && msg_payload(*msg).len() <= MAX_VOICE_FRAME_BYTES,
            !(msg matches MumbleMsg::UDPTunnel(_)) ==> msg_payload(*msg).len() <= 0xFFFFFFFF,
        ensures
            out@ == outbound_bytes(*old(self), *msg),
            *final(self) == writer_step_message(*old(self), *msg, now_ms),
    {
        let out: Vec<u8>;
        if matches!(msg, MumbleMsg::UDPTunnel(_)) {
            let audio = msg.payload();
            let seq_encoded = varint_encode(self.seq_nr);
            let len_encoded = varint_encode(audio.len() as u64);
            let mut body: Vec<u8> = Vec::new();
            body.push(VOICE_TYPE_TARGET);
            append_bytes(&mut body, &seq_encoded);
            append_bytes(&mut body, &len_encoded);
            append_bytes(&mut body, audio);
            assert(body@ =~= voice_body(self.seq_nr, audio@));
            out = encode_frame(MumbleType::UDPTunnel.tag_value(), &body);
            self.seq_nr = self.seq_nr + 1;
        } else {
            let data = msg.as_data();
            out = encode_frame(msg.tag().tag_value(), &data);
        }
        self.deadline_ms = now_ms + KEEPALIVE_MS;
        out
    }

    /// Poll the keepalive timer at time `now_ms`. If a whole interval has
    /// passed since the last outbound traffic, the ping frame comes back
    /// and the deadline moves on; otherwise nothing is owed and nothing
    /// changes. A ping never advances voice sequencing.
    pub fn on_timer(&mut self, now_ms: u64) -> (out: Option<Vec<u8>>)
        requires
            now_ms + KEEPALIVE_MS <= u64::MAX,
        ensures
            *final(self) == writer_step_timer(*old(self), now_ms),
            timer_fires(*old(self), now_ms) ==> (out matches Some(f) && f@ == ping_frame_bytes()),
            !timer_fires(*old(self), now_ms) ==> out is None,
    {
        if now_ms >= self.deadline_ms {
            let empty: Vec<u8> = Vec::new();
            let frame = encode_frame(MumbleType::Ping.tag_value(), &empty);
            assert(frame@ =~= ping_frame_bytes());
            self.deadline_ms = now_ms + KEEPALIVE_MS;
            Some(frame)
        } else {
            None
        }
    }
}

/// The keepalive discipline: a real outbound message at time `sent` pushes
/// the deadline a whole interval out, so a timer poll strictly earlier than
/// `sent + KEEPALIVE_MS` emits nothing, and a poll at or past it emits the
/// ping.
pub proof fn lemma_keepalive_discipline(w: Writer, m: MumbleMsg, sent: u64, polled: u64)
    requires
        sent + KEEPALIVE_MS <= u64::MAX,
    ensures
        polled < sent + KEEPALIVE_MS ==> !timer_fires(writer_step_message(w, m, sent), polled),
        polled >= sent + KEEPALIVE_MS ==> timer_fires(writer_step_message(w, m, sent), polled),
{
}

/// Voice packets are numbered gaplessly: consecutive voice packets carry
/// consecutive sequence numbers in their frames, whatever non-voice traffic
/// or keepalives come between them, since only voice packets advance the
/// counter.
pub proof fn lemma_voice_seq_gapless(
    w: Writer,
    m1: MumbleMsg,
    m2: MumbleMsg,
    t1: u64,
    t2: u64,
)
    requires
        m1 is UDPTunnel,
        m2 is UDPTunnel,
        w.seq_nr + 2 <= u64::MAX,
    ensures
        outbound_bytes(w, m1) == voice_frame_bytes(w.seq_nr, msg_payload(m1)),
        outbound_bytes(writer_step_message(w, m1, t1), m2) == voice_frame_bytes(
            (w.seq_nr + 1) as u64,
            msg_payload(m2),
        ),
        forall|m: MumbleMsg, t: u64|
            !(m is UDPTunnel) ==> #[trigger] writer_step_message(w, m, t).seq_nr == w.seq_nr,
        forall|t: u64| #[trigger] writer_step_timer(w, t).seq_nr == w.seq_nr,
{
}

} // verus!
