use mumblebot::player::{
    playing_announcement, EngineOp, PlayerAction, PlayerEvent, PlayerModel, PlayerState, Song,
    SongType,
};

fn song(name: &str) -> Song {
    Song {
        name: name.to_string(),
        id: format!("spotify:track:{}", name),
        song_type: SongType::Spotify,
    }
}

#[test]
fn end_to_end_scenario() {
    let mut m = PlayerModel::new();

    // PlaySong(A) while Ready: playback starts at once, queue stays empty.
    let out = m.step(PlayerEvent::Act(PlayerAction::PlaySong(song("A"))));
    assert_eq!(m.state, PlayerState::Playing);
    assert_eq!(m.queue.len(), 0);
    assert_eq!(out.reply, None);
    assert_eq!(out.op, None);
    let started = out.start.expect("A starts");
    assert_eq!(started.name, "A");
    assert_eq!(playing_announcement(&started), "Playing song: A");

    // PlaySong(B) while Playing: enqueued and announced, state unchanged.
    let out = m.step(PlayerEvent::Act(PlayerAction::PlaySong(song("B"))));
    assert_eq!(m.state, PlayerState::Playing);
    assert_eq!(m.queue.len(), 1);
    assert_eq!(out.reply, Some("Enqueueing song: B".to_string()));
    assert_eq!(out.start, None);

    // Next: A's delivery is cancelled, B starts at once.
    let out = m.step(PlayerEvent::Act(PlayerAction::Next));
    assert_eq!(out.op, Some(EngineOp::CancelAndStop));
    let started = out.start.expect("B starts");
    assert_eq!(started.name, "B");
    assert_eq!(playing_announcement(&started), "Playing song: B");
    assert_eq!(m.state, PlayerState::Playing);
    assert_eq!(m.queue.len(), 0);
}

#[test]
fn play_while_stopped_returns_to_ready_and_starts() {
    let mut m = PlayerModel::new();
    let _ = m.step(PlayerEvent::Act(PlayerAction::Stop));
    assert_eq!(m.state, PlayerState::Stopped);
    let out = m.step(PlayerEvent::Act(PlayerAction::PlaySong(song("A"))));
    assert_eq!(m.state, PlayerState::Playing);
    assert_eq!(out.start.unwrap().name, "A");
}

#[test]
fn next_and_stop_without_playback_need_no_cancellation() {
    let mut m = PlayerModel::new();
    let out = m.step(PlayerEvent::Act(PlayerAction::Next));
    assert_eq!(out.op, None);
    assert_eq!(m.state, PlayerState::Ready);
    let out = m.step(PlayerEvent::Act(PlayerAction::Stop));
    assert_eq!(out.op, None);
    assert_eq!(m.state, PlayerState::Stopped);
    // Next while Stopped returns to Ready.
    let out = m.step(PlayerEvent::Act(PlayerAction::Next));
    assert_eq!(out.op, None);
    assert_eq!(m.state, PlayerState::Ready);
}

#[test]
fn stop_while_playing_cancels_and_keeps_queue() {
    let mut m = PlayerModel::new();
    let _ = m.step(PlayerEvent::Act(PlayerAction::PlaySong(song("A"))));
    let _ = m.step(PlayerEvent::Act(PlayerAction::PlaySong(song("B"))));
    let out = m.step(PlayerEvent::Act(PlayerAction::Stop));
    assert_eq!(out.op, Some(EngineOp::CancelAndStop));
    assert_eq!(m.state, PlayerState::Stopped);
    // B stays queued; Stopped suppresses the tick.
    assert_eq!(m.queue.len(), 1);
    assert_eq!(out.start, None);
}

#[test]
fn pause_and_resume_are_exact_matches_only() {
    let mut m = PlayerModel::new();

    // Pause while Ready: no-op.
    let out = m.step(PlayerEvent::Act(PlayerAction::Pause));
    assert_eq!(out.op, None);
    assert_eq!(m.state, PlayerState::Ready);

    // Resume while Ready: no-op.
    let out = m.step(PlayerEvent::Act(PlayerAction::Resume));
    assert_eq!(out.op, None);
    assert_eq!(m.state, PlayerState::Ready);

    let _ = m.step(PlayerEvent::Act(PlayerAction::PlaySong(song("A"))));
    let out = m.step(PlayerEvent::Act(PlayerAction::Pause));
    assert_eq!(out.op, Some(EngineOp::PauseDelivery));
    assert_eq!(m.state, PlayerState::Paused);

    // Pause while Paused: no-op.
    let out = m.step(PlayerEvent::Act(PlayerAction::Pause));
    assert_eq!(out.op, None);
    assert_eq!(m.state, PlayerState::Paused);

    let out = m.step(PlayerEvent::Act(PlayerAction::Resume));
    assert_eq!(out.op, Some(EngineOp::ResumeDelivery));
    assert_eq!(m.state, PlayerState::Playing);
}

#[test]
fn volume_forwards_in_any_state() {
    let mut m = PlayerModel::new();
    let out = m.step(PlayerEvent::Act(PlayerAction::SetVolume(40)));
    assert_eq!(out.op, Some(EngineOp::SetVolume(40)));
    assert_eq!(m.state, PlayerState::Ready);
}

#[test]
fn show_queue_lists_names_without_mutating() {
    let mut m = PlayerModel::new();
    let out = m.step(PlayerEvent::Act(PlayerAction::ShowQueue));
    assert_eq!(out.reply, Some("Songs in queue: ".to_string()));
    let _ = m.step(PlayerEvent::Act(PlayerAction::PlaySong(song("A"))));
    let _ = m.step(PlayerEvent::Act(PlayerAction::PlaySong(song("B"))));
    let _ = m.step(PlayerEvent::Act(PlayerAction::PlaySong(song("C"))));
    let before = m.queue.clone();
    let out = m.step(PlayerEvent::Act(PlayerAction::ShowQueue));
    assert_eq!(out.reply, Some("Songs in queue: B, C".to_string()));
    assert_eq!(m.queue, before);
    assert_eq!(m.state, PlayerState::Playing);
}

#[test]
fn completion_signal_advances_only_while_playing() {
    let mut m = PlayerModel::new();
    let _ = m.step(PlayerEvent::Act(PlayerAction::PlaySong(song("A"))));
    let _ = m.step(PlayerEvent::Act(PlayerAction::PlaySong(song("B"))));
    // A finishes on its own: B starts.
    let out = m.step(PlayerEvent::Finished);
    assert_eq!(out.start.unwrap().name, "B");
    assert_eq!(m.state, PlayerState::Playing);

    // A stale completion while Stopped is ignored.
    let _ = m.step(PlayerEvent::Act(PlayerAction::Stop));
    let out = m.step(PlayerEvent::Finished);
    assert_eq!(m.state, PlayerState::Stopped);
    assert_eq!(out.start, None);
}

#[test]
fn queue_is_fifo_across_interleaved_actions() {
    let mut m = PlayerModel::new();
    let first = m
        .step(PlayerEvent::Act(PlayerAction::PlaySong(song("A"))))
        .start
        .unwrap();
    let _ = m.step(PlayerEvent::Act(PlayerAction::PlaySong(song("B"))));
    let _ = m.step(PlayerEvent::Act(PlayerAction::SetVolume(30)));
    let _ = m.step(PlayerEvent::Act(PlayerAction::PlaySong(song("C"))));
    let _ = m.step(PlayerEvent::Act(PlayerAction::ShowQueue));
    let _ = m.step(PlayerEvent::Act(PlayerAction::PlaySong(song("D"))));
    let mut order = vec![first.name];
    for _ in 0..3 {
        let out = m.step(PlayerEvent::Act(PlayerAction::Next));
        order.push(out.start.unwrap().name);
    }
    assert_eq!(order, vec!["A", "B", "C", "D"]);
}

#[test]
fn replaying_a_script_is_deterministic() {
    let script = || {
        vec![
            PlayerEvent::Act(PlayerAction::PlaySong(song("A"))),
            PlayerEvent::Act(PlayerAction::PlaySong(song("B"))),
            PlayerEvent::Act(PlayerAction::Pause),
            PlayerEvent::Act(PlayerAction::Resume),
            PlayerEvent::Finished,
            PlayerEvent::Act(PlayerAction::PlaySong(song("C"))),
            PlayerEvent::Act(PlayerAction::Next),
            PlayerEvent::Act(PlayerAction::Stop),
        ]
    };
    let mut m1 = PlayerModel::new();
    let mut m2 = PlayerModel::new();
    m1.run_script(script());
    m2.run_script(script());
    assert_eq!(m1.state, m2.state);
    assert_eq!(m1.queue, m2.queue);
    // A played, B took over on completion, Next started C, Stop ended it:
    // nothing is left queued.
    assert_eq!(m1.state, PlayerState::Stopped);
    assert!(m1.queue.is_empty());
}
