//! The audio delivery engine's session model.
//!
//! The engine turns a stream of raw interleaved 16-bit stereo samples at
//! 48 kHz into a paced stream of 10 ms frames: it pre-buffers, removes one
//! frame's worth of samples from the head of its buffer per tick, scales
//! each sample by the current volume, and hands the frame on for
//! compression and framing. Cancellation is cooperative: once the session
//! is cancelled, no further frame is ever emitted.
//!
//! This module is the decision core of the delivery task. The task around
//! it — the input channel, the 10 ms tick, the compressor and the lock —
//! performs exactly what `step` decides.

use vstd::prelude::*;

use vstd::arithmetic::div_mod::lemma_fundamental_div_mod_converse;

verus! {

/// Samples per second per channel of the fixed output format.
pub const SAMPLE_RATE: usize = 48_000;

/// Channels of the fixed output format.
pub const CHANNELS: usize = 2;

/// Milliseconds of audio per emitted frame.
pub const FRAME_MS: usize = 10;

/// Interleaved samples in one 10 ms frame: rate / 1000 * 10 ms * channels.
pub const SAMPLES_PER_FRAME: usize = SAMPLE_RATE / 1_000 * FRAME_MS * CHANNELS;

/// Interleaved samples held before pacing begins: thirty seconds of audio.
pub const PREBUFFER_SAMPLES: usize = SAMPLE_RATE * 30 * CHANNELS;

/// The volume a fresh engine starts at, as an integer percentage.
pub const DEFAULT_VOLUME_PERCENT: u8 = 25;

/// The packet-loss resilience hint the compressor is configured with.
pub const PACKET_LOSS_PERCENT: i32 = 15;

/// One sample scaled by a volume percentage, truncating toward zero after
/// the multiplication.
pub open spec fn scale_sample(v: i16, percent: u8) -> i16
    recommends
        percent <= 100,
{
    if v >= 0 {
        ((v as int) * (percent as int) / 100) as i16
    } else {
        (0 - ((0 - v as int) * (percent as int) / 100)) as i16
    }
}

/// A whole frame scaled sample by sample.
pub open spec fn scale_frame(s: Seq<i16>, percent: u8) -> Seq<i16> {
    s.map_values(|v: i16| scale_sample(v, percent))
}

/// Scale one sample by a volume percentage.
pub fn scale_sample_exec(v: i16, percent: u8) -> (r: i16)
    requires
        percent <= 100,
    ensures
        r == scale_sample(v, percent),
{
    if v >= 0 {
        proof {
            assert((v as int) * (percent as int) <= 3276700) by (nonlinear_arith)
                requires
                    0 <= v <= 32767,
                    percent <= 100,
            ;
        }
        let prod: u32 = (v as u32) * (percent as u32);
        let q: u32 = prod / 100;
        proof {
            assert(q <= 32767);
        }
        q as i16
    } else {
        let mag: u32 = (0 - (v as i32)) as u32;
        proof {
            assert(mag <= 32768);
            assert((mag as int) * (percent as int) <= 3276800) by (nonlinear_arith)
                requires
                    mag <= 32768,
                    percent <= 100,
            ;
        }
        let prod: u32 = mag * (percent as u32);
        let q: u32 = prod / 100;
        proof {
            assert(q <= 32768);
        }
        (0 - (q as i32)) as i16
    }
}

/// The engine session as the contracts see it.
pub ghost struct EngineModel {
    /// The pending sample buffer, head first.
    pub buf: Seq<i16>,
    /// The current volume percentage.
    pub volume_percent: u8,
    /// Whether the current scope has been cancelled.
    pub cancelled: bool,
    /// Whether the input stream is exhausted.
    pub input_done: bool,
}

/// A live engine session: the pending buffer, the volume, and the two
/// flags that drive the delivery loop.
#[derive(Debug)]
pub struct Engine {
    /// The pending sample buffer, head first.
    pub buf: Vec<i16>,
    /// The current volume percentage.
    pub volume_percent: u8,
    /// Whether the current scope has been cancelled.
    pub cancelled: bool,
    /// Whether the input stream is exhausted.
    pub input_done: bool,
}

impl View for Engine {
    type V = EngineModel;

    open spec fn view(&self) -> EngineModel {
        EngineModel {
            buf: self.buf@,
            volume_percent: self.volume_percent,
            cancelled: self.cancelled,
            input_done: self.input_done,
        }
    }
}

/// A session is well formed when its volume is a percentage.
pub open spec fn engine_wf(m: EngineModel) -> bool {
    m.volume_percent <= 100
}

/// What one delivery step decides.
#[derive(Debug)]
pub enum DeliveryStep {
    /// One frame's worth of samples, volume already applied: compress it,
    /// wait for the tick, and send it as a voice packet.
    Emit(Vec<i16>),
    /// The buffer is short and the input not exhausted: pull another chunk.
    AwaitInput,
    /// The scope was cancelled: exit without emitting anything.
    Cancelled,
    /// Input exhausted and less than a frame left: the track ended on its
    /// own; raise the completion signal once.
    Finished,
}

/// One delivery step on the model: the follow-on state and the frame
/// emitted, if any.
pub open spec fn step_spec(m: EngineModel) -> (EngineModel, Option<Seq<i16>>) {
    if m.cancelled {
        (m, None)
    } else if m.buf.len() >= SAMPLES_PER_FRAME {
        (
            EngineModel { buf: m.buf.skip(SAMPLES_PER_FRAME as int), ..m },
            Some(scale_frame(m.buf.take(SAMPLES_PER_FRAME as int), m.volume_percent)),
        )
    } else {
        (m, None)
    }
}

/// The frames `n` successive steps emit from model `m`.
pub open spec fn run_steps(m: EngineModel, n: nat) -> Seq<Seq<i16>>
    decreases n,
{
    if n == 0 {
        Seq::empty()
    } else {
        let (m1, emitted) = step_spec(m);
        let head: Seq<Seq<i16>> = match emitted {
            Some(f) => seq![f],
            None => Seq::empty(),
        };
        head + run_steps(m1, (n - 1) as nat)
    }
}

impl Engine {
    /// A fresh engine: empty buffer, default volume, nothing cancelled.
    pub fn new() -> (e: Engine)
        ensures
            e@ == (EngineModel {
                buf: Seq::empty(),
                volume_percent: DEFAULT_VOLUME_PERCENT,
                cancelled: false,
                input_done: false,
            }),
            engine_wf(e@),
    {
        Engine {
            buf: Vec::new(),
            volume_percent: DEFAULT_VOLUME_PERCENT,
            cancelled: false,
            input_done: false,
        }
    }

    /// Begin a new playback session: the buffer is reset, a fresh scope is
    /// minted, and the new input stream counts as not yet exhausted. The
    /// volume carries over.
    pub fn start(&mut self)
        ensures
            final(self)@ == (EngineModel {
                buf: Seq::empty(),
                volume_percent: old(self)@.volume_percent,
                cancelled: false,
                input_done: false,
            }),
    {
        self.buf.clear();
        self.cancelled = false;
        self.input_done = false;
    }

    /// Resume a paused session: a fresh scope is minted while the buffer
    /// and the input stream are kept exactly as they were.
    pub fn resume(&mut self)
        ensures
            final(self)@ == (EngineModel { cancelled: false, ..old(self)@ }),
    {
        self.cancelled = false;
    }

    /// Cancel the current scope. Every later step observes it and emits
    /// nothing.
    pub fn cancel(&mut self)
        ensures
            final(self)@ == (EngineModel { cancelled: true, ..old(self)@ }),
    {
        self.cancelled = true;
    }

    /// Change the volume percentage; it applies from the next frame on,
    /// never retroactively.
    pub fn set_volume(&mut self, percent: u8)
        requires
            percent <= 100,
        ensures
            final(self)@ == (EngineModel { volume_percent: percent, ..old(self)@ }),
    {
        self.volume_percent = percent;
    }

    /// Append one chunk from the input stream to the buffer tail.
    pub fn feed(&mut self, chunk: Vec<i16>)
        ensures
            final(self)@ == (EngineModel { buf: old(self)@.buf + chunk@, ..old(self)@ }),
    {
        let mut chunk = chunk;
        self.buf.append(&mut chunk);
    }

    /// Record that the input stream is exhausted.
    pub fn mark_input_done(&mut self)
        ensures
            final(self)@ == (EngineModel { input_done: true, ..old(self)@ }),
    {
        self.input_done = true;
    }

    /// Whether pre-buffering should pull more input: the buffer holds less
    /// than thirty seconds of audio and the input still flows.
    pub fn prebuffer_wants_more(&self) -> (r: bool)
        ensures
            r == (self@.buf.len() < PREBUFFER_SAMPLES && !self@.input_done),
    {
        self.buf.len() < PREBUFFER_SAMPLES && !self.input_done
    }

    /// One step of the delivery loop. A cancelled scope emits nothing; a
    /// full frame is removed from the buffer head and scaled by the current
    /// volume; a short buffer asks for input while any remains, and ends
    /// the track once the input is exhausted.
    pub fn step(&mut self) -> (r: DeliveryStep)
        requires
            engine_wf(old(self)@),
        ensures
            engine_wf(final(self)@),
            match r {
                DeliveryStep::Emit(f) => {
                    &&& step_spec(old(self)@) == (final(self)@, Some(f@))
                    &&& !old(self)@.cancelled
                    &&& old(self)@.buf.len() >= SAMPLES_PER_FRAME
                },
                DeliveryStep::AwaitInput => {
                    &&& final(self)@ == old(self)@
                    &&& !old(self)@.cancelled
                    &&& old(self)@.buf.len() < SAMPLES_PER_FRAME
                    &&& !old(self)@.input_done
                },
                DeliveryStep::Cancelled => {
                    &&& final(self)@ == old(self)@
                    &&& old(self)@.cancelled
                },
                DeliveryStep::Finished => {
                    &&& final(self)@ == old(self)@
                    &&& !old(self)@.cancelled
                    &&& old(self)@.buf.len() < SAMPLES_PER_FRAME
                    &&& old(self)@.input_done
                },
            },
    {
        if self.cancelled {
            return DeliveryStep::Cancelled;
        }
        if self.buf.len() >= SAMPLES_PER_FRAME {
            let tail = self.buf.split_off(SAMPLES_PER_FRAME);
            let mut frame: Vec<i16> = Vec::new();
            let vol = self.volume_percent;
            let ghost head = old(self)@.buf.take(SAMPLES_PER_FRAME as int);
            for i in 0..SAMPLES_PER_FRAME
                invariant
                    vol <= 100,
                    self.buf@ == head,
                    head.len() == SAMPLES_PER_FRAME,
                    frame@.len() == i,
                    forall|k: int|
                        0 <= k < i ==> frame@[k] == scale_sample(head[k], vol),
            {
                frame.push(scale_sample_exec(self.buf[i], vol));
            }
            assert(frame@ =~= scale_frame(head, vol));
            self.buf = tail;
            assert(self@.buf =~= old(self)@.buf.skip(SAMPLES_PER_FRAME as int));
            DeliveryStep::Emit(frame)
        } else if !self.input_done {
            DeliveryStep::AwaitInput
        } else {
            DeliveryStep::Finished
        }
    }
}

/// Cancellation is final: from a cancelled model, any number of further
/// steps emits no frame at all. A `stop` observed by the delivery task
/// therefore guarantees zero further voice packets.
pub proof fn lemma_stop_is_final(m: EngineModel, n: nat)
    requires
        m.cancelled,
    ensures
        run_steps(m, n) == Seq::<Seq<i16>>::empty(),
    decreases n,
{
    if n > 0 {
        assert(step_spec(m) == (m, Option::<Seq<i16>>::None));
        lemma_stop_is_final(m, (n - 1) as nat);
        assert(run_steps(m, n) =~= run_steps(m, (n - 1) as nat));
    }
}

/// The concatenation of the chunks from index `i` on.
pub open spec fn concat_from(chunks: Seq<Seq<i16>>, i: int) -> Seq<i16>
    decreases chunks.len() - i,
{
    if i < 0 || i >= chunks.len() {
        Seq::empty()
    } else {
        chunks[i] + concat_from(chunks, i + 1)
    }
}

/// All the samples of an input, in order.
pub open spec fn all_samples(chunks: Seq<Vec<i16>>) -> Seq<i16> {
    concat_from(chunks.map_values(|c: Vec<i16>| c@), 0)
}

/// Copy a sample vector element by element.
fn copy_samples(src: &Vec<i16>) -> (out: Vec<i16>)
    ensures
        out@ == src@,
{
    let mut out: Vec<i16> = Vec::new();
    let n = src.len();
    for i in 0..n
        invariant
            n == src@.len(),
            out@ == src@.take(i as int),
    {
        out.push(src[i]);
        assert(out@ =~= src@.take(i as int + 1));
    }
    assert(out@ =~= src@);
    out
}

/// Deliver a whole finite input without cancellation: feed every chunk,
/// then step until the track ends on its own. Exactly one frame comes out
/// per full frame's worth of samples, each the matching segment of the
/// input scaled by the volume; a trailing shortfall of less than one frame
/// is never emitted.
pub fn deliver_all(chunks: &Vec<Vec<i16>>, volume_percent: u8) -> (frames: Vec<Vec<i16>>)
    requires
        volume_percent <= 100,
    ensures
        frames@.len() == all_samples(chunks@).len() as int / (SAMPLES_PER_FRAME as int),
        forall|k: int|
            0 <= k < frames@.len() ==> frames@[k]@ == scale_frame(
                all_samples(chunks@).subrange(
                    k * (SAMPLES_PER_FRAME as int),
                    (k + 1) * (SAMPLES_PER_FRAME as int),
                ),
                volume_percent,
            ),
{
    let ghost all = all_samples(chunks@);
    let ghost views = chunks@.map_values(|c: Vec<i16>| c@);
    let mut engine = Engine::new();
    engine.set_volume(volume_percent);
    engine.start();

    let n = chunks.len();
    for i in 0..n
        invariant
            n == chunks@.len(),
            views == chunks@.map_values(|c: Vec<i16>| c@),
            all == all_samples(chunks@),
            engine@.buf + concat_from(views, i as int) == all,
            engine@.volume_percent == volume_percent,
            !engine@.cancelled,
            !engine@.input_done,
    {
        let chunk = copy_samples(&chunks[i]);
        let ghost buf_before = engine@.buf;
        engine.feed(chunk);
        proof {
            assert(views[i as int] == chunks@[i as int]@);
            assert(concat_from(views, i as int) == views[i as int] + concat_from(
                views,
                i as int + 1,
            ));
            assert(engine@.buf + concat_from(views, i as int + 1) =~= buf_before + concat_from(
                views,
                i as int,
            ));
        }
    }
    proof {
        assert(concat_from(views, n as int) =~= Seq::<i16>::empty());
        assert(engine@.buf =~= all);
    }
    engine.mark_input_done();

    let ghost spf = SAMPLES_PER_FRAME as int;
    let mut frames: Vec<Vec<i16>> = Vec::new();
    proof {
        assert(0 * spf == 0) by (nonlinear_arith);
        assert(all.skip(0) =~= all);
    }
    loop
        invariant
            engine_wf(engine@),
            !engine@.cancelled,
            engine@.input_done,
            engine@.volume_percent == volume_percent,
            frames@.len() * spf <= all.len(),
            engine@.buf == all.skip(frames@.len() * spf),
            spf == SAMPLES_PER_FRAME as int,
            forall|k: int|
                0 <= k < frames@.len() ==> frames@[k]@ == scale_frame(
                    all.subrange(k * spf, (k + 1) * spf),
                    volume_percent,
                ),
        ensures
            engine@.buf.len() < spf,
        decreases engine@.buf.len(),
    {
        let ghost e = frames@.len() as int;
        let s = engine.step();
        match s {
            DeliveryStep::Emit(f) => {
                proof {
                    assert((e + 1) * spf == e * spf + spf) by (nonlinear_arith);
                    assert(all.skip(e * spf).take(spf) =~= all.subrange(e * spf, (e + 1) * spf));
                    assert(all.skip(e * spf).skip(spf) =~= all.skip((e + 1) * spf));
                }
                frames.push(f);
            },
            DeliveryStep::Finished => {
                break ;
            },
            DeliveryStep::AwaitInput => {
                proof {
                    assert(false);
                }
                break ;
            },
            DeliveryStep::Cancelled => {
                proof {
                    assert(false);
                }
                break ;
            },
        }
    }
    proof {
        let e = frames@.len() as int;
        assert(engine@.buf.len() == all.len() - e * spf);
        assert(all.len() - e * spf < spf);
        lemma_fundamental_div_mod_converse(all.len() as int, spf, e, all.len() - e * spf);
    }
    frames
}

} // verus!
