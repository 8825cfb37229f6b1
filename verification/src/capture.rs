//! The input capture loop: what a terminal event means, and what the loop
//! does next.
//!
//! The loop itself talks to the terminal and to the channel, so it is run by
//! the caller. After every answer it gets from either, it asks
//! [`capture_step`] what to do. The decisions are all here.

use vstd::prelude::*;
use crate::channel::{ChannelState, NoteChannel};
use crate::note::{key_note, note_for_key, Note};

verus! {

/// How long one poll of the terminal may wait, in milliseconds.
pub const POLL_TIMEOUT_MS: u64 = 1;

/// The key that ends the capture loop.
pub const QUIT_KEY: char = 'q';

/// Whether a key went down, is held down, or came up.
#[derive(Clone, Copy, Debug, PartialEq, Eq, Structural)]
pub enum KeyKind {
    Press,
    Repeat,
    Release,
}

/// What the bindings read of a key: its character, where it has one.
#[derive(Clone, Copy, Debug, PartialEq, Eq, Structural)]
pub enum Key {
    Char(char),
    Other,
}

/// One key event as the terminal reports it.
#[derive(Clone, Copy, Debug, PartialEq, Eq, Structural)]
pub struct KeyStroke {
    pub key: Key,
    pub kind: KeyKind,
}

/// One terminal event. Mouse, focus, paste and resize events are `Other`.
#[derive(Clone, Copy, Debug, PartialEq, Eq, Structural)]
pub enum InputEvent {
    Key(KeyStroke),
    Other,
}

/// A request to play a note in place of whatever was playing.
#[derive(Clone, Copy, Debug, PartialEq, Eq, Structural)]
pub struct ReplaceEvent {
    pub note: Note,
}

/// What one terminal event asks of the capture loop.
#[derive(Clone, Copy, Debug, PartialEq, Eq, Structural)]
pub enum CaptureEvent {
    Play(ReplaceEvent),
    Unhandled,
    Break,
}

/// The meaning of a terminal event.
///
/// The quit key ends the loop whatever its kind. A bound key that goes down
/// or is held plays its note; its release plays nothing. Everything else is
/// ignored.
pub open spec fn classification(event: InputEvent) -> CaptureEvent {
    match event {
        InputEvent::Key(stroke) => match stroke.key {
            Key::Char(c) => if c == QUIT_KEY {
                CaptureEvent::Break
            } else if stroke.kind != KeyKind::Release && key_note(c).is_some() {
                CaptureEvent::Play(ReplaceEvent { note: key_note(c).unwrap() })
            } else {
                CaptureEvent::Unhandled
            },
            Key::Other => CaptureEvent::Unhandled,
        },
        InputEvent::Other => CaptureEvent::Unhandled,
    }
}

/// Classifies one terminal event.
pub fn classify(event: InputEvent) -> (meaning: CaptureEvent)
    ensures
        meaning == classification(event),
{
    match event {
        InputEvent::Key(stroke) => match stroke.key {
            Key::Char(c) => {
                if c == QUIT_KEY {
                    return CaptureEvent::Break;
                }
                match stroke.kind {
                    KeyKind::Release => CaptureEvent::Unhandled,
                    _ => match note_for_key(c) {
                        Some(note) => CaptureEvent::Play(ReplaceEvent { note }),
                        None => CaptureEvent::Unhandled,
                    },
                }
            },
            Key::Other => CaptureEvent::Unhandled,
        },
        InputEvent::Other => CaptureEvent::Unhandled,
    }
}

/// Where the capture loop stands between two steps.
#[derive(Clone, Copy, Debug, PartialEq, Eq, Structural)]
pub enum CaptureState {
    /// The terminal is being put into raw mode.
    Entering,
    /// A poll of the terminal is under way.
    Polling,
    /// The poll found an event, which is being read.
    Reading,
    /// A note is being handed to the channel.
    Sending,
    /// The loop has ended and the terminal has its old mode back.
    Stopped,
}

/// What came back from the terminal or the channel.
#[derive(Clone, Copy, Debug, PartialEq, Eq, Structural)]
pub enum CaptureInput {
    /// Raw mode was entered (`true`) or could not be (`false`).
    Entered(bool),
    /// The poll ended: an event is waiting (`true`) or the timeout ran out.
    Polled(bool),
    /// The event that was read.
    Read(InputEvent),
    /// The channel took the note (`true`) or its receiver is gone.
    Sent(bool),
    /// Polling or reading the terminal failed.
    Failed,
}

/// Why the capture loop ended.
#[derive(Clone, Copy, Debug, PartialEq, Eq, Structural)]
pub enum StopReason {
    Quit,
    InputError,
    ReceiverGone,
}

/// What the capture loop has to do next.
#[derive(Clone, Copy, Debug, PartialEq, Eq, Structural)]
pub enum CaptureAction {
    /// Put the terminal into raw mode and switch event reporting on.
    Enter,
    /// Poll the terminal, waiting at most this many milliseconds.
    Poll(u64),
    /// Read the event that the poll found.
    Read,
    /// Send the note on the channel.
    Send(Note),
    /// Give the terminal its old mode back and end the loop.
    Stop(StopReason),
}

/// A new state together with the action that leads into it.
#[derive(Clone, Copy, Debug, PartialEq, Eq, Structural)]
pub struct CaptureStep {
    pub state: CaptureState,
    pub action: CaptureAction,
}

/// The step that goes back to polling.
pub open spec fn poll_again() -> CaptureStep {
    CaptureStep { state: CaptureState::Polling, action: CaptureAction::Poll(POLL_TIMEOUT_MS) }
}

/// The step that ends the loop.
pub open spec fn stop_for(reason: StopReason) -> CaptureStep {
    CaptureStep { state: CaptureState::Stopped, action: CaptureAction::Stop(reason) }
}

/// The transition relation of the capture loop. `None` where the input is
/// not an answer to what the state is waiting for.
pub open spec fn capture_transition(state: CaptureState, input: CaptureInput) -> Option<
    CaptureStep,
> {
    match (state, input) {
        (CaptureState::Entering, CaptureInput::Entered(true)) => Some(poll_again()),
        (CaptureState::Entering, CaptureInput::Entered(false)) => Some(
            stop_for(StopReason::InputError),
        ),
        (CaptureState::Polling, CaptureInput::Polled(true)) => Some(
            CaptureStep { state: CaptureState::Reading, action: CaptureAction::Read },
        ),
        (CaptureState::Polling, CaptureInput::Polled(false)) => Some(poll_again()),
        (CaptureState::Polling, CaptureInput::Failed) => Some(stop_for(StopReason::InputError)),
        (CaptureState::Reading, CaptureInput::Read(event)) => match classification(event) {
            CaptureEvent::Play(request) => Some(
                CaptureStep {
                    state: CaptureState::Sending,
                    action: CaptureAction::Send(request.note),
                },
            ),
            CaptureEvent::Unhandled => Some(poll_again()),
            CaptureEvent::Break => Some(stop_for(StopReason::Quit)),
        },
        (CaptureState::Reading, CaptureInput::Failed) => Some(stop_for(StopReason::InputError)),
        (CaptureState::Sending, CaptureInput::Sent(true)) => Some(poll_again()),
        (CaptureState::Sending, CaptureInput::Sent(false)) => Some(
            stop_for(StopReason::ReceiverGone),
        ),
        _ => None,
    }
}

/// The state in which the loop begins and its first action.
pub fn capture_start() -> (step: CaptureStep)
    ensures
        step == (CaptureStep { state: CaptureState::Entering, action: CaptureAction::Enter }),
{
    CaptureStep { state: CaptureState::Entering, action: CaptureAction::Enter }
}

/// Decides what the capture loop does after `input` arrived in `state`.
pub fn capture_step(state: CaptureState, input: CaptureInput) -> (step: Option<CaptureStep>)
    ensures
        step == capture_transition(state, input),
{
    let again = CaptureStep {
        state: CaptureState::Polling,
        action: CaptureAction::Poll(POLL_TIMEOUT_MS),
    };
    match state {
        CaptureState::Entering => match input {
            CaptureInput::Entered(true) => Some(again),
            CaptureInput::Entered(false) => Some(stopped(StopReason::InputError)),
            _ => None,
        },
        CaptureState::Polling => match input {
            CaptureInput::Polled(true) => Some(
                CaptureStep { state: CaptureState::Reading, action: CaptureAction::Read },
            ),
            CaptureInput::Polled(false) => Some(again),
            CaptureInput::Failed => Some(stopped(StopReason::InputError)),
            _ => None,
        },
        CaptureState::Reading => match input {
            CaptureInput::Read(event) => match classify(event) {
                CaptureEvent::Play(request) => Some(
                    CaptureStep {
                        state: CaptureState::Sending,
                        action: CaptureAction::Send(request.note),
                    },
                ),
                CaptureEvent::Unhandled => Some(again),
                CaptureEvent::Break => Some(stopped(StopReason::Quit)),
            },
            CaptureInput::Failed => Some(stopped(StopReason::InputError)),
            _ => None,
        },
        CaptureState::Sending => match input {
            CaptureInput::Sent(true) => Some(again),
            CaptureInput::Sent(false) => Some(stopped(StopReason::ReceiverGone)),
            _ => None,
        },
        CaptureState::Stopped => None,
    }
}

fn stopped(reason: StopReason) -> (step: CaptureStep)
    ensures
        step == stop_for(reason),
{
    CaptureStep { state: CaptureState::Stopped, action: CaptureAction::Stop(reason) }
}

/// The loop ends exactly when it is told to restore the terminal: no step
/// leaves the loop without a `Stop`, and no `Stop` leaves it running.
pub proof fn lemma_every_exit_restores(state: CaptureState, input: CaptureInput)
    requires
        capture_transition(state, input).is_some(),
    ensures
        capture_transition(state, input).unwrap().state == CaptureState::Stopped
            <==> capture_transition(state, input).unwrap().action is Stop,
{
}

/// A stopped loop takes no further step.
pub proof fn lemma_stopped_is_final(input: CaptureInput)
    ensures
        capture_transition(CaptureState::Stopped, input).is_none(),
{
}

/// A note is sent exactly for an event that was read and that plays that
/// note.
pub proof fn lemma_send_only_what_was_played(
    state: CaptureState,
    input: CaptureInput,
    note: Note,
)
    ensures
        (capture_transition(state, input).is_some() && capture_transition(
            state,
            input,
        ).unwrap().action == CaptureAction::Send(note)) <==> (state == CaptureState::Reading
            && exists|event: InputEvent|
            input == CaptureInput::Read(event) && classification(event) == CaptureEvent::Play(
                ReplaceEvent { note },
            )),
{
    if let CaptureInput::Read(event) = input {
        if state == CaptureState::Reading && classification(event) == CaptureEvent::Play(
            ReplaceEvent { note },
        ) {
            assert(input == CaptureInput::Read(event));
        }
    }
}

/// What a capture loop makes of a run of terminal events: the notes it
/// queues and why it stops, if it does.
pub struct Capture {
    pub notes: Seq<Note>,
    pub stop: Option<StopReason>,
}

/// The outcome of reading `events` one after another, on a channel that
/// accepts notes or does not.
///
/// Events are taken until one of them breaks the loop. Each one that plays a
/// note queues it; on a channel that accepts nothing, the first such event
/// ends the loop instead. Where the events run out, the loop has not stopped.
pub open spec fn capture_of(events: Seq<InputEvent>, accepted: bool) -> Capture
    decreases events.len(),
{
    if events.len() == 0 {
        Capture { notes: Seq::empty(), stop: None }
    } else {
        match classification(events[0]) {
            CaptureEvent::Break => Capture { notes: Seq::empty(), stop: Some(StopReason::Quit) },
            CaptureEvent::Unhandled => capture_of(events.skip(1), accepted),
            CaptureEvent::Play(request) => if accepted {
                let rest = capture_of(events.skip(1), accepted);
                Capture { notes: seq![request.note] + rest.notes, stop: rest.stop }
            } else {
                Capture { notes: Seq::empty(), stop: Some(StopReason::ReceiverGone) }
            },
        }
    }
}

/// Runs the capture loop over events that were read already, sending to
/// `channel` what the loop sends, and returns why the loop stopped, or
/// `None` where it would go on polling.
///
/// The notes arrive behind what was queued, in the order of their keys, one
/// for each event that plays a note and none for any other.
pub fn capture_recorded(events: &[InputEvent], channel: &mut NoteChannel) -> (stop: Option<
    StopReason,
>)
    ensures
        stop == capture_of(events@, old(channel)@.accepts()).stop,
        final(channel)@ == (ChannelState {
            pending: old(channel)@.pending + capture_of(events@, old(channel)@.accepts()).notes,
            ..old(channel)@
        }),
{
    let ghost accepted = channel@.accepts();
    let ghost whole = capture_of(events@, accepted);
    let mut at: usize = 0;
    proof {
        assert(events@.skip(0) =~= events@);
        assert(old(channel)@.pending + Seq::<Note>::empty() =~= old(channel)@.pending);
    }
    while at < events.len()
        invariant
            at <= events@.len(),
            accepted == old(channel)@.accepts(),
            whole == capture_of(events@, accepted),
            channel@.senders == old(channel)@.senders,
            channel@.receiver_alive == old(channel)@.receiver_alive,
            whole.stop == capture_of(events@.skip(at as int), accepted).stop,
            old(channel)@.pending + whole.notes == channel@.pending + capture_of(
                events@.skip(at as int),
                accepted,
            ).notes,
        decreases events@.len() - at,
    {
        let ghost rest = events@.skip(at as int);
        let ghost queued = channel@.pending;
        proof {
            assert(rest[0] == events@[at as int]);
            assert(rest.skip(1) =~= events@.skip(at + 1));
        }
        let read = capture_step(CaptureState::Reading, CaptureInput::Read(events[at]));
        let mut step = match read {
            Some(step) => step,
            None => {
                return Some(StopReason::InputError);
            },
        };
        if let CaptureAction::Send(note) = step.action {
            let sent = channel.send(note).is_ok();
            proof {
                let after = capture_of(rest.skip(1), accepted).notes;
                assert(queued.push(note) + after =~= queued + (seq![note] + after));
            }
            step = match capture_step(step.state, CaptureInput::Sent(sent)) {
                Some(step) => step,
                None => {
                    return Some(StopReason::InputError);
                },
            };
        }
        if let CaptureAction::Stop(reason) = step.action {
            proof {
                assert(channel@.pending + Seq::<Note>::empty() =~= channel@.pending);
            }
            return Some(reason);
        }
        at = at + 1;
    }
    proof {
        assert(channel@.pending + Seq::<Note>::empty() =~= channel@.pending);
    }
    None
}

/// Keys struck in succession are captured in succession: where the loop
/// does not stop within `earlier`, reading `earlier` and then `later` queues
/// the notes of the first followed by the notes of the second, and stops as
/// the second does. No note is dropped and none changes its place.
pub proof fn lemma_capture_in_succession(
    earlier: Seq<InputEvent>,
    later: Seq<InputEvent>,
    accepted: bool,
)
    requires
        capture_of(earlier, accepted).stop.is_none(),
    ensures
        capture_of(earlier + later, accepted).notes == capture_of(earlier, accepted).notes
            + capture_of(later, accepted).notes,
        capture_of(earlier + later, accepted).stop == capture_of(later, accepted).stop,
    decreases earlier.len(),
{
    if earlier.len() == 0 {
        assert(earlier + later =~= later);
        assert(Seq::<Note>::empty() + capture_of(later, accepted).notes =~= capture_of(
            later,
            accepted,
        ).notes);
    } else {
        let both = earlier + later;
        assert(both[0] == earlier[0]);
        assert(both.skip(1) =~= earlier.skip(1) + later);
        match classification(earlier[0]) {
            CaptureEvent::Break => {},
            CaptureEvent::Unhandled => {
                lemma_capture_in_succession(earlier.skip(1), later, accepted);
            },
            CaptureEvent::Play(request) => {
                if accepted {
                    lemma_capture_in_succession(earlier.skip(1), later, accepted);
                    let head = seq![request.note];
                    let first = capture_of(earlier.skip(1), accepted).notes;
                    let second = capture_of(later, accepted).notes;
                    assert(head + (first + second) =~= (head + first) + second);
                }
            },
        }
    }
}

} // verus!
