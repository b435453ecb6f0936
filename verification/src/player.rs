//! The player orchestrator: the playback queue and its state machine.
//!
//! The orchestrator owns the queue of tracks and the single `PlayerState`.
//! It consumes control actions and the engine's completion signal, one at a
//! time, and decides what the engine should do and what to announce. After
//! every event an implicit tick applies: while the player is ready and the
//! queue holds a track, the head track is dequeued and playback starts.
//!
//! The step function here is pure: the event loop around it, the channels
//! it reads from and the engine it commands live outside the crate.

use vstd::prelude::*;

verus! {

/// Where a track comes from; the only catalog wired up today.
#[derive(Debug, Clone, Copy, PartialEq, Eq, Structural)]
pub enum SongType {
    Spotify,
}

/// One playable track: a display name and the resolver's opaque identifier.
#[derive(Debug, Clone, PartialEq)]
pub struct Song {
    pub name: String,
    pub id: String,
    pub song_type: SongType,
}

/// The orchestrator's single mode of operation.
#[derive(Debug, Clone, Copy, PartialEq, Eq, Structural)]
pub enum PlayerState {
    /// Idle and willing to start the next queued track.
    Ready,
    /// A delivery task is (or is about to be) running.
    Playing,
    /// Delivery halted with its buffer and input kept for `Resume`.
    Paused,
    /// Idle and unwilling to start queued tracks until a new `PlaySong`.
    Stopped,
}

/// A user-issued control action. Volume arrives as an integer percentage,
/// zero to one hundred.
#[derive(Debug, Clone, PartialEq)]
pub enum PlayerAction {
    PlaySong(Song),
    Stop,
    Pause,
    Resume,
    Next,
    ShowQueue,
    SetVolume(u8),
}

/// One input to the orchestrator: an action, or the engine's signal that a
/// track finished on its own.
#[derive(Debug, Clone, PartialEq)]
pub enum PlayerEvent {
    Act(PlayerAction),
    Finished,
}

/// What the orchestrator asks of the delivery engine.
#[derive(Debug, Clone, Copy, PartialEq, Eq, Structural)]
pub enum EngineOp {
    /// Cancel the current scope and stop delivery; the session is done.
    CancelAndStop,
    /// Stop delivery but keep the buffered input for a later `Resume`.
    PauseDelivery,
    /// Spawn a fresh delivery task over the kept buffer and input.
    ResumeDelivery,
    /// Change the volume percentage, effective from the next frame.
    SetVolume(u8),
}

/// Everything one step decides: a reply to send first, an engine operation,
/// and, when the tick fires, the dequeued track whose playback starts.
#[derive(Debug)]
pub struct StepOutput {
    /// Text announced in response to the event itself.
    pub reply: Option<String>,
    /// What the engine is told to do before any new playback starts.
    pub op: Option<EngineOp>,
    /// The track dequeued by the tick: the caller announces it, resolves
    /// its sample stream, and starts the engine on it.
    pub start: Option<Song>,
}

/// The announcement made when a track starts playing.
pub open spec fn playing_text(name: Seq<char>) -> Seq<char> {
    "Playing song: "@ + name
}

/// The announcement made when a track is queued behind a playing one.
pub open spec fn enqueueing_text(name: Seq<char>) -> Seq<char> {
    "Enqueueing song: "@ + name
}

/// The tail of the queue listing from item `i` on: names separated by a
/// comma and space, with no separator after the last.
pub open spec fn listing_from(names: Seq<Seq<char>>, i: int) -> Seq<char>
    decreases names.len() - i,
{
    if i < 0 || i >= names.len() {
        Seq::empty()
    } else {
        let sep: Seq<char> = if i != names.len() - 1 {
            ", "@
        } else {
            Seq::empty()
        };
        names[i] + sep + listing_from(names, i + 1)
    }
}

/// The reply to `ShowQueue`: a fixed heading, then the queued names in order.
pub open spec fn queue_listing_text(names: Seq<Seq<char>>) -> Seq<char> {
    "Songs in queue: "@ + listing_from(names, 0)
}

/// The queued names, in queue order.
pub open spec fn queue_names(q: Seq<Song>) -> Seq<Seq<char>> {
    q.map_values(|s: Song| s.name@)
}

/// The state an action moves the player to, before the tick.
pub open spec fn action_state(s: PlayerState, a: PlayerAction) -> PlayerState {
    match a {
        PlayerAction::PlaySong(_) => if s == PlayerState::Stopped {
            PlayerState::Ready
        } else {
            s
        },
        PlayerAction::Next => PlayerState::Ready,
        PlayerAction::Stop => PlayerState::Stopped,
        PlayerAction::Pause => if s == PlayerState::Playing {
            PlayerState::Paused
        } else {
            s
        },
        PlayerAction::Resume => if s == PlayerState::Paused {
            PlayerState::Playing
        } else {
            s
        },
        PlayerAction::ShowQueue => s,
        PlayerAction::SetVolume(_) => s,
    }
}

/// The state an event moves the player to, before the tick. A completion
/// signal matters only while playing: one from a superseded scope is ignored.
pub open spec fn event_state(s: PlayerState, e: PlayerEvent) -> PlayerState {
    match e {
        PlayerEvent::Act(a) => action_state(s, a),
        PlayerEvent::Finished => if s == PlayerState::Playing {
            PlayerState::Ready
        } else {
            s
        },
    }
}

/// The queue after an event, before the tick: only `PlaySong` changes it,
/// appending at the tail.
pub open spec fn event_queue(q: Seq<Song>, e: PlayerEvent) -> Seq<Song> {
    match e {
        PlayerEvent::Act(PlayerAction::PlaySong(t)) => q.push(t),
        _ => q,
    }
}

/// Whether the tick starts a new track: the player is ready and the queue
/// is not empty.
pub open spec fn tick_fires(s: PlayerState, q: Seq<Song>) -> bool {
    s == PlayerState::Ready && q.len() > 0
}

/// The state after the whole step, tick included.
pub open spec fn post_state(s: PlayerState, q: Seq<Song>, e: PlayerEvent) -> PlayerState {
    let s1 = event_state(s, e);
    let q1 = event_queue(q, e);
    if tick_fires(s1, q1) {
        PlayerState::Playing
    } else {
        s1
    }
}

/// The queue after the whole step, tick included.
pub open spec fn post_queue(s: PlayerState, q: Seq<Song>, e: PlayerEvent) -> Seq<Song> {
    let s1 = event_state(s, e);
    let q1 = event_queue(q, e);
    if tick_fires(s1, q1) {
        q1.skip(1)
    } else {
        q1
    }
}

/// The track the tick dequeues and starts, if any: always the queue head.
pub open spec fn step_started(s: PlayerState, q: Seq<Song>, e: PlayerEvent) -> Option<Song> {
    let s1 = event_state(s, e);
    let q1 = event_queue(q, e);
    if tick_fires(s1, q1) {
        Some(q1[0])
    } else {
        None
    }
}

/// The reply an event provokes: an enqueue announcement for a `PlaySong`
/// that lands behind a playing track, or the queue listing for `ShowQueue`.
pub open spec fn step_reply(s: PlayerState, q: Seq<Song>, e: PlayerEvent) -> Option<Seq<char>> {
    match e {
        PlayerEvent::Act(PlayerAction::PlaySong(t)) => if s == PlayerState::Playing {
            Some(enqueueing_text(t.name@))
        } else {
            None
        },
        PlayerEvent::Act(PlayerAction::ShowQueue) => Some(queue_listing_text(queue_names(q))),
        _ => None,
    }
}

/// The engine operation an event provokes, per the transition table.
pub open spec fn step_op(s: PlayerState, e: PlayerEvent) -> Option<EngineOp> {
    match e {
        PlayerEvent::Act(PlayerAction::Next) | PlayerEvent::Act(PlayerAction::Stop) => if s
            == PlayerState::Playing || s == PlayerState::Paused {
            Some(EngineOp::CancelAndStop)
        } else {
            None
        },
        PlayerEvent::Act(PlayerAction::Pause) => if s == PlayerState::Playing {
            Some(EngineOp::PauseDelivery)
        } else {
            None
        },
        PlayerEvent::Act(PlayerAction::Resume) => if s == PlayerState::Paused {
            Some(EngineOp::ResumeDelivery)
        } else {
            None
        },
        PlayerEvent::Act(PlayerAction::SetVolume(v)) => Some(EngineOp::SetVolume(v)),
        _ => None,
    }
}

/// The whole step as one function on the model: the next state and queue.
pub open spec fn step_model(s: PlayerState, q: Seq<Song>, e: PlayerEvent) -> (
    PlayerState,
    Seq<Song>,
) {
    (post_state(s, q, e), post_queue(s, q, e))
}

/// A whole scripted run, one step per event in order.
pub open spec fn run_model(s: PlayerState, q: Seq<Song>, script: Seq<PlayerEvent>) -> (
    PlayerState,
    Seq<Song>,
)
    decreases script.len(),
{
    if script.len() == 0 {
        (s, q)
    } else {
        let (s1, q1) = step_model(s, q, script[0]);
        run_model(s1, q1, script.skip(1))
    }
}

/// The orchestrator's state: the mode and the FIFO queue of tracks.
#[derive(Debug)]
pub struct PlayerModel {
    pub state: PlayerState,
    pub queue: Vec<Song>,
}

/// Build the announcement for a track that starts playing.
pub fn playing_announcement(song: &Song) -> (r: String)
    ensures
        r@ == playing_text(song.name@),
{
    let mut s = String::from_str("Playing song: ");
    s.append(song.name.as_str());
    s
}

/// Build the announcement for a track queued behind a playing one.
fn enqueueing_announcement(name: &String) -> (r: String)
    ensures
        r@ == enqueueing_text(name@),
{
    let mut s = String::from_str("Enqueueing song: ");
    s.append(name.as_str());
    s
}

/// Build the `ShowQueue` reply listing the queued names in order.
fn build_queue_listing(queue: &Vec<Song>) -> (r: String)
    ensures
        r@ == queue_listing_text(queue_names(queue@)),
{
    let ghost names = queue_names(queue@);
    let mut out = String::from_str("Songs in queue: ");
    let n = queue.len();
    assert(out@ + listing_from(names, 0) == queue_listing_text(names)) by {
        if n == 0 {
            assert(listing_from(names, 0) =~= Seq::<char>::empty());
            assert(out@ + listing_from(names, 0) =~= out@);
        }
    }
    for i in 0..n
        invariant
            n == queue@.len(),
            names == queue_names(queue@),
            out@ + listing_from(names, i as int) == queue_listing_text(names),
    {
        assert(names[i as int] == queue@[i as int].name@);
        out.append(queue[i].name.as_str());
        if i != n - 1 {
            out.append(", ");
        }
        proof {
            let sep: Seq<char> = if i as int != names.len() - 1 {
                ", "@
            } else {
                Seq::empty()
            };
            assert(listing_from(names, i as int) == names[i as int] + sep + listing_from(
                names,
                i as int + 1,
            ));
            assert(out@ + listing_from(names, i as int + 1) =~= queue_listing_text(names));
        }
    }
    assert(listing_from(names, n as int) =~= Seq::<char>::empty());
    assert(out@ =~= queue_listing_text(names));
    out
}

impl PlayerModel {
    /// A fresh orchestrator: ready, with an empty queue.
    pub fn new() -> (m: PlayerModel)
        ensures
            m.state == PlayerState::Ready,
            m.queue@.len() == 0,
    {
        PlayerModel { state: PlayerState::Ready, queue: Vec::new() }
    }

    /// Handle one event and apply the tick rule, returning everything the
    /// caller must carry out: the reply to send, the engine operation, and
    /// the dequeued track whose playback starts.
    pub fn step(&mut self, event: PlayerEvent) -> (out: StepOutput)
        ensures
            final(self).state == post_state(old(self).state, old(self).queue@, event),
            final(self).queue@ == post_queue(old(self).state, old(self).queue@, event),
            out.op == step_op(old(self).state, event),
            out.start == step_started(old(self).state, old(self).queue@, event),
            (out.reply matches Some(r) ==> step_reply(old(self).state, old(self).queue@, event)
                == Some(r@)),
            (out.reply is None <==> step_reply(old(self).state, old(self).queue@, event)
                is None),
    {
        let mut reply: Option<String> = None;
        let mut op: Option<EngineOp> = None;

        match event {
            PlayerEvent::Act(action) => match action {
                PlayerAction::PlaySong(song) => {
                    if self.state == PlayerState::Playing {
                        reply = Some(enqueueing_announcement(&song.name));
                    }
                    self.queue.push(song);
                    if self.state == PlayerState::Stopped {
                        self.state = PlayerState::Ready;
                    }
                },
                PlayerAction::Next => {
                    if self.state == PlayerState::Playing || self.state == PlayerState::Paused {
                        op = Some(EngineOp::CancelAndStop);
                    }
                    self.state = PlayerState::Ready;
                },
                PlayerAction::Stop => {
                    if self.state == PlayerState::Playing || self.state == PlayerState::Paused {
                        op = Some(EngineOp::CancelAndStop);
                    }
                    self.state = PlayerState::Stopped;
                },
                PlayerAction::Pause => {
                    if self.state == PlayerState::Playing {
                        op = Some(EngineOp::PauseDelivery);
                        self.state = PlayerState::Paused;
                    }
                },
                PlayerAction::Resume => {
                    if self.state == PlayerState::Paused {
                        op = Some(EngineOp::ResumeDelivery);
                        self.state = PlayerState::Playing;
                    }
                },
                PlayerAction::ShowQueue => {
                    reply = Some(build_queue_listing(&self.queue));
                },
                PlayerAction::SetVolume(v) => {
                    op = Some(EngineOp::SetVolume(v));
                },
            },
            PlayerEvent::Finished => {
                if self.state == PlayerState::Playing {
                    self.state = PlayerState::Ready;
                }
            },
        }

        let mut start: Option<Song> = None;
        if self.state == PlayerState::Ready && self.queue.len() > 0 {
            let song = self.queue.remove(0);
            self.state = PlayerState::Playing;
            start = Some(song);
        }

        StepOutput { reply, op, start }
    }

    /// Replay a whole script of events, discarding the outputs. The final
    /// state and queue are a function of the starting model and the script
    /// alone: replaying the same script from the same model always lands in
    /// the same place.
    pub fn run_script(&mut self, script: Vec<PlayerEvent>)
        ensures
            (final(self).state, final(self).queue@) == run_model(
                old(self).state,
                old(self).queue@,
                script@,
            ),
    {
        let mut script = script;
        let ghost orig_state = self.state;
        let ghost orig_queue = self.queue@;
        let ghost orig_script = script@;
        while script.len() > 0
            invariant
                run_model(self.state, self.queue@, script@) == run_model(
                    orig_state,
                    orig_queue,
                    orig_script,
                ),
            decreases script@.len(),
        {
            let e = script.remove(0);
            let ghost pre_state = self.state;
            let ghost pre_queue = self.queue@;
            let ghost pre_script = script@;
            let _ = self.step(e);
        }
    }
}

/// The tracks a script enqueues, in arrival order.
pub open spec fn enqueued_songs(script: Seq<PlayerEvent>) -> Seq<Song>
    decreases script.len(),
{
    if script.len() == 0 {
        Seq::empty()
    } else {
        let head: Seq<Song> = match script[0] {
            PlayerEvent::Act(PlayerAction::PlaySong(t)) => seq![t],
            _ => Seq::empty(),
        };
        head + enqueued_songs(script.skip(1))
    }
}

/// The tracks whose playback a scripted run starts, in start order.
pub open spec fn run_starts(s: PlayerState, q: Seq<Song>, script: Seq<PlayerEvent>) -> Seq<Song>
    decreases script.len(),
{
    if script.len() == 0 {
        Seq::empty()
    } else {
        let head: Seq<Song> = match step_started(s, q, script[0]) {
            Some(t) => seq![t],
            None => Seq::empty(),
        };
        let next = step_model(s, q, script[0]);
        head + run_starts(next.0, next.1, script.skip(1))
    }
}

/// Dequeue order equals enqueue order, whatever else a script does: the
/// tracks a run starts, followed by the tracks still queued at its end,
/// are exactly the tracks queued at the outset followed by the tracks the
/// script enqueued, in order.
pub proof fn lemma_fifo_run(s: PlayerState, q: Seq<Song>, script: Seq<PlayerEvent>)
    ensures
        run_starts(s, q, script) + run_model(s, q, script).1 == q + enqueued_songs(script),
    decreases script.len(),
{
    if script.len() == 0 {
        assert(run_starts(s, q, script) + run_model(s, q, script).1 =~= q + enqueued_songs(
            script,
        ));
    } else {
        let e = script[0];
        let rest = script.skip(1);
        let s1 = post_state(s, q, e);
        let q1 = post_queue(s, q, e);
        lemma_fifo_run(s1, q1, rest);
        let head: Seq<Song> = match step_started(s, q, e) {
            Some(t) => seq![t],
            None => Seq::empty(),
        };
        let head_enq: Seq<Song> = match e {
            PlayerEvent::Act(PlayerAction::PlaySong(t)) => seq![t],
            _ => Seq::empty(),
        };
        // One step moves at most the queue head into the started sequence
        // and at most one new track to the queue tail.
        assert(head + q1 =~= q + head_enq);
        assert(head + run_starts(s1, q1, rest) + run_model(s1, q1, rest).1 =~= head + (
        run_starts(s1, q1, rest) + run_model(s1, q1, rest).1));
        assert(head + (q1 + enqueued_songs(rest)) =~= (head + q1) + enqueued_songs(rest));
        assert((q + head_enq) + enqueued_songs(rest) =~= q + (head_enq + enqueued_songs(rest)));
        assert(run_starts(s, q, script) + run_model(s, q, script).1 =~= q + enqueued_songs(
            script,
        ));
    }
}

/// The queue is strictly FIFO: an event either leaves the queue alone or
/// appends the new track at the tail, and the tick only ever removes the
/// head, which is exactly the track whose playback starts.
pub proof fn lemma_queue_fifo(s: PlayerState, q: Seq<Song>, e: PlayerEvent)
    ensures
        ({
            let q1 = event_queue(q, e);
            let q2 = post_queue(s, q, e);
            &&& (q1 == q || (e matches PlayerEvent::Act(PlayerAction::PlaySong(t)) && q1
                == q.push(t)))
            &&& (q2 == q1 || (q1.len() > 0 && q2 == q1.skip(1) && step_started(s, q, e)
                == Some(q1[0])))
        }),
{
}

} // verus!
