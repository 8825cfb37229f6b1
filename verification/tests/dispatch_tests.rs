use keytone::capture::{capture_recorded, InputEvent, Key, KeyKind, KeyStroke};
use keytone::channel::NoteChannel;
use keytone::dispatch::{
    backlog_latency_ms, dispatch_backlog, dispatch_start, dispatch_step, poll_channel,
    DispatchAction, DispatchInput, DispatchStep, DispatcherState, PlayRequest, PLAY_DURATION_MS,
};
use keytone::note::Note;
use keytone::play::{PlayError, PlayOutcome};

fn press(c: char) -> InputEvent {
    InputEvent::Key(KeyStroke { key: Key::Char(c), kind: KeyKind::Press })
}

/// Feeds key presses through the capture loop into the channel.
fn type_keys(channel: &mut NoteChannel, keys: &[char]) {
    let events: Vec<InputEvent> = keys.iter().map(|key| press(*key)).collect();
    assert_eq!(capture_recorded(&events, channel), None);
}

#[test]
fn dispatcher_starts_idle_and_receiving() {
    assert_eq!(
        dispatch_start(),
        DispatchStep { state: DispatcherState::Idle, action: DispatchAction::Receive }
    );
}

#[test]
fn received_note_is_played_for_the_fixed_duration() {
    assert_eq!(PLAY_DURATION_MS, 100);
    assert_eq!(
        dispatch_step(DispatcherState::Idle, DispatchInput::Received(Note::G3)),
        Some(DispatchStep {
            state: DispatcherState::Playing(Note::G3),
            action: DispatchAction::Play(PlayRequest { note: Note::G3, duration_ms: 100 }),
        })
    );
}

#[test]
fn completed_play_returns_to_idle() {
    assert_eq!(
        dispatch_step(
            DispatcherState::Playing(Note::G3),
            DispatchInput::Played(PlayOutcome::Completed)
        ),
        Some(DispatchStep { state: DispatcherState::Idle, action: DispatchAction::Receive })
    );
}

#[test]
fn failed_play_is_reported_and_dispatch_goes_on() {
    for error in [PlayError::DeviceUnavailable, PlayError::StreamError] {
        assert_eq!(
            dispatch_step(
                DispatcherState::Playing(Note::A3),
                DispatchInput::Played(PlayOutcome::Failed(error))
            ),
            Some(DispatchStep {
                state: DispatcherState::Idle,
                action: DispatchAction::ReportAndReceive(error),
            })
        );
    }
}

#[test]
fn closed_channel_terminates_the_dispatcher() {
    assert_eq!(
        dispatch_step(DispatcherState::Idle, DispatchInput::Closed),
        Some(DispatchStep {
            state: DispatcherState::Terminated,
            action: DispatchAction::Shutdown,
        })
    );
}

#[test]
fn terminated_dispatcher_takes_no_step() {
    let inputs = [
        DispatchInput::Received(Note::C3),
        DispatchInput::Closed,
        DispatchInput::Played(PlayOutcome::Completed),
        DispatchInput::Played(PlayOutcome::Failed(PlayError::StreamError)),
    ];
    for input in inputs {
        assert_eq!(dispatch_step(DispatcherState::Terminated, input), None);
    }
}

#[test]
fn nothing_interrupts_a_sounding_note() {
    let playing = DispatcherState::Playing(Note::C3);
    assert_eq!(dispatch_step(playing, DispatchInput::Received(Note::D3)), None);
    assert_eq!(dispatch_step(playing, DispatchInput::Closed), None);
    assert_eq!(
        dispatch_step(DispatcherState::Idle, DispatchInput::Played(PlayOutcome::Completed)),
        None
    );
}

#[test]
fn poll_channel_reports_note_wait_and_close() {
    let mut channel = NoteChannel::new();
    assert_eq!(poll_channel(&mut channel), None);
    channel.send(Note::B3).unwrap();
    assert_eq!(poll_channel(&mut channel), Some(DispatchInput::Received(Note::B3)));
    assert_eq!(poll_channel(&mut channel), None);
    channel.drop_sender();
    assert_eq!(poll_channel(&mut channel), Some(DispatchInput::Closed));
}

#[test]
fn closed_signal_leads_to_no_further_receive() {
    let mut channel = NoteChannel::new();
    channel.send(Note::E3).unwrap();
    channel.drop_sender();
    let mut step = dispatch_start();
    let mut receives = 0;
    let mut closed_signals = 0;
    let mut played = Vec::new();
    loop {
        match step.action {
            DispatchAction::Receive | DispatchAction::ReportAndReceive(_) => {
                receives += 1;
                let input = poll_channel(&mut channel).unwrap();
                if input == DispatchInput::Closed {
                    closed_signals += 1;
                }
                step = dispatch_step(step.state, input).unwrap();
            }
            DispatchAction::Play(request) => {
                played.push(request.note);
                let ended = DispatchInput::Played(PlayOutcome::Completed);
                step = dispatch_step(step.state, ended).unwrap();
            }
            DispatchAction::Shutdown => break,
        }
    }
    assert_eq!(played, vec![Note::E3]);
    assert_eq!(receives, 2);
    assert_eq!(closed_signals, 1);
    assert_eq!(step.state, DispatcherState::Terminated);
    assert_eq!(dispatch_step(step.state, DispatchInput::Closed), None);
}

#[test]
fn one_key_press_plays_one_note_and_returns_to_idle() {
    let mut channel = NoteChannel::new();
    type_keys(&mut channel, &['a']);
    assert_eq!(channel.len(), 1);
    let input = poll_channel(&mut channel).unwrap();
    assert_eq!(input, DispatchInput::Received(Note::C3));
    let playing = dispatch_step(DispatcherState::Idle, input).unwrap();
    assert_eq!(playing.state, DispatcherState::Playing(Note::C3));
    assert_eq!(
        playing.action,
        DispatchAction::Play(PlayRequest { note: Note::C3, duration_ms: 100 })
    );
    let after =
        dispatch_step(playing.state, DispatchInput::Played(PlayOutcome::Completed)).unwrap();
    assert_eq!(after.state, DispatcherState::Idle);
    assert_eq!(after.action, DispatchAction::Receive);
    assert_eq!(poll_channel(&mut channel), None);
}

#[test]
fn three_rapid_key_presses_play_in_order() {
    let mut channel = NoteChannel::new();
    type_keys(&mut channel, &['a', 's', 'd']);
    assert_eq!(channel.len(), 3);
    assert_eq!(backlog_latency_ms(&channel), 300);
    let run = dispatch_backlog(&mut channel);
    assert_eq!(
        run.plays,
        vec![
            PlayRequest { note: Note::C3, duration_ms: 100 },
            PlayRequest { note: Note::D3, duration_ms: 100 },
            PlayRequest { note: Note::E3, duration_ms: 100 },
        ]
    );
    let total: u64 = run.plays.iter().map(|play| play.duration_ms).sum();
    assert_eq!(total, 300);
    assert_eq!(run.state, DispatcherState::Idle);
    assert!(channel.is_empty());
}

#[test]
fn unbound_keys_between_notes_queue_nothing() {
    let mut channel = NoteChannel::new();
    type_keys(&mut channel, &['a', 'z', 'k', '1']);
    let run = dispatch_backlog(&mut channel);
    let notes: Vec<Note> = run.plays.iter().map(|play| play.note).collect();
    assert_eq!(notes, vec![Note::C3, Note::C4]);
}

#[test]
fn backlog_of_a_closed_channel_ends_terminated() {
    let mut channel = NoteChannel::new();
    channel.send(Note::F3).unwrap();
    channel.drop_sender();
    let run = dispatch_backlog(&mut channel);
    assert_eq!(run.plays, vec![PlayRequest { note: Note::F3, duration_ms: 100 }]);
    assert_eq!(run.state, DispatcherState::Terminated);
}

#[test]
fn empty_backlog_plays_nothing() {
    let mut open = NoteChannel::new();
    let run = dispatch_backlog(&mut open);
    assert!(run.plays.is_empty());
    assert_eq!(run.state, DispatcherState::Idle);
    assert_eq!(backlog_latency_ms(&open), 0);
    let mut closed = NoteChannel::new();
    closed.drop_sender();
    let run = dispatch_backlog(&mut closed);
    assert!(run.plays.is_empty());
    assert_eq!(run.state, DispatcherState::Terminated);
}

#[test]
fn latency_grows_by_one_duration_for_each_queued_note() {
    let mut channel = NoteChannel::new();
    for queued in 1..=25u128 {
        channel.send(Note::D3).unwrap();
        assert_eq!(backlog_latency_ms(&channel), queued * 100);
    }
}

#[test]
fn quit_after_three_keys_closes_and_terminates_after_the_backlog() {
    let mut channel = NoteChannel::new();
    let events: Vec<InputEvent> = ['a', 's', 'd', 'q', 'f'].iter().map(|k| press(*k)).collect();
    assert_eq!(capture_recorded(&events, &mut channel), Some(keytone::capture::StopReason::Quit));
    channel.drop_sender();
    let run = dispatch_backlog(&mut channel);
    let notes: Vec<Note> = run.plays.iter().map(|play| play.note).collect();
    assert_eq!(notes, vec![Note::C3, Note::D3, Note::E3]);
    assert_eq!(run.state, DispatcherState::Terminated);
}
