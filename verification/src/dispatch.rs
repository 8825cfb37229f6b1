//! The playback dispatcher: one note at a time, in the order of arrival.
//!
//! The dispatcher is idle until a note arrives, plays it to completion, and
//! is idle again. When the channel closes it terminates for good. Waiting on
//! the channel and playing are the caller's work; [`dispatch_step`] decides.

use vstd::prelude::*;
use crate::channel::{ChannelState, NoteChannel, TryRecvError};
use crate::note::Note;
use crate::play::{PlayError, PlayOutcome};

verus! {

/// How long one note sounds, in milliseconds of wall-clock time.
pub const PLAY_DURATION_MS: u64 = 100;

/// One note to play, and for how long.
#[derive(Clone, Copy, Debug, PartialEq, Eq, Structural)]
pub struct PlayRequest {
    pub note: Note,
    pub duration_ms: u64,
}

/// Where the dispatcher stands.
#[derive(Clone, Copy, Debug, PartialEq, Eq, Structural)]
pub enum DispatcherState {
    /// Waiting for the next note.
    Idle,
    /// This note is sounding.
    Playing(Note),
    /// The channel closed; the dispatcher has ended.
    Terminated,
}

/// What the channel or the audio sink handed back.
#[derive(Clone, Copy, Debug, PartialEq, Eq, Structural)]
pub enum DispatchInput {
    /// The channel delivered this note.
    Received(Note),
    /// The channel is closed and empty.
    Closed,
    /// The play cycle of the current note ended.
    Played(PlayOutcome),
}

/// What the dispatcher has to do next.
#[derive(Clone, Copy, Debug, PartialEq, Eq, Structural)]
pub enum DispatchAction {
    /// Block on the channel until it delivers a note or closes.
    Receive,
    /// Tell the user that the last note failed, then block on the channel.
    ReportAndReceive(PlayError),
    /// Play this note to completion.
    Play(PlayRequest),
    /// Stop receiving and let the process shut down.
    Shutdown,
}

/// A new state together with the action that leads into it.
#[derive(Clone, Copy, Debug, PartialEq, Eq, Structural)]
pub struct DispatchStep {
    pub state: DispatcherState,
    pub action: DispatchAction,
}

/// The request that plays `note` for the fixed duration.
pub open spec fn request_for(note: Note) -> PlayRequest {
    PlayRequest { note, duration_ms: PLAY_DURATION_MS }
}

/// The transition relation of the dispatcher. `None` where the input cannot
/// arrive in the state: a note while another one sounds, the end of a play
/// while none sounds, anything at all after termination.
pub open spec fn dispatch_transition(state: DispatcherState, input: DispatchInput) -> Option<
    DispatchStep,
> {
    match (state, input) {
        (DispatcherState::Idle, DispatchInput::Received(note)) => Some(
            DispatchStep {
                state: DispatcherState::Playing(note),
                action: DispatchAction::Play(request_for(note)),
            },
        ),
        (DispatcherState::Idle, DispatchInput::Closed) => Some(
            DispatchStep { state: DispatcherState::Terminated, action: DispatchAction::Shutdown },
        ),
        (DispatcherState::Playing(_), DispatchInput::Played(PlayOutcome::Completed)) => Some(
            DispatchStep { state: DispatcherState::Idle, action: DispatchAction::Receive },
        ),
        (DispatcherState::Playing(_), DispatchInput::Played(PlayOutcome::Failed(error))) => Some(
            DispatchStep {
                state: DispatcherState::Idle,
                action: DispatchAction::ReportAndReceive(error),
            },
        ),
        _ => None,
    }
}

/// What a receive on the channel means to the dispatcher. `None` where the
/// channel is merely empty and the dispatcher has to wait.
pub open spec fn input_of(got: Result<Note, TryRecvError>) -> Option<DispatchInput> {
    match got {
        Ok(note) => Some(DispatchInput::Received(note)),
        Err(TryRecvError::Disconnected) => Some(DispatchInput::Closed),
        Err(TryRecvError::Empty) => None,
    }
}

/// The state in which the dispatcher begins and its first action.
pub fn dispatch_start() -> (step: DispatchStep)
    ensures
        step == (DispatchStep { state: DispatcherState::Idle, action: DispatchAction::Receive }),
{
    DispatchStep { state: DispatcherState::Idle, action: DispatchAction::Receive }
}

/// Decides what the dispatcher does after `input` arrived in `state`.
pub fn dispatch_step(state: DispatcherState, input: DispatchInput) -> (step: Option<DispatchStep>)
    ensures
        step == dispatch_transition(state, input),
{
    match state {
        DispatcherState::Idle => match input {
            DispatchInput::Received(note) => Some(
                DispatchStep {
                    state: DispatcherState::Playing(note),
                    action: DispatchAction::Play(
                        PlayRequest { note, duration_ms: PLAY_DURATION_MS },
                    ),
                },
            ),
            DispatchInput::Closed => Some(
                DispatchStep {
                    state: DispatcherState::Terminated,
                    action: DispatchAction::Shutdown,
                },
            ),
            DispatchInput::Played(_) => None,
        },
        DispatcherState::Playing(_) => match input {
            DispatchInput::Played(PlayOutcome::Completed) => Some(
                DispatchStep { state: DispatcherState::Idle, action: DispatchAction::Receive },
            ),
            DispatchInput::Played(PlayOutcome::Failed(error)) => Some(
                DispatchStep {
                    state: DispatcherState::Idle,
                    action: DispatchAction::ReportAndReceive(error),
                },
            ),
            _ => None,
        },
        DispatcherState::Terminated => None,
    }
}

/// Asks the channel once on behalf of an idle dispatcher. A note or the
/// closed signal comes back as the dispatcher's next input; `None` says
/// that the channel is empty but open, so the caller waits and asks again.
pub fn poll_channel(channel: &mut NoteChannel) -> (input: Option<DispatchInput>)
    ensures
        input == input_of(old(channel)@.next()),
        final(channel)@ == old(channel)@.received(),
{
    match channel.try_recv() {
        Ok(note) => Some(DispatchInput::Received(note)),
        Err(TryRecvError::Disconnected) => Some(DispatchInput::Closed),
        Err(TryRecvError::Empty) => None,
    }
}

/// The requests that play `notes` one after another.
pub open spec fn requests_for(notes: Seq<Note>) -> Seq<PlayRequest> {
    Seq::new(notes.len(), |i: int| request_for(notes[i]))
}

/// What the dispatcher makes of a backlog: the plays in their order, and
/// where the dispatcher stands after the last of them.
#[derive(Debug)]
pub struct BacklogRun {
    pub plays: Vec<PlayRequest>,
    pub state: DispatcherState,
}

/// Runs an idle dispatcher over everything that is queued, each play taken
/// as completed, until the channel would make it wait or has closed.
///
/// Every queued note is played once, in the order of the queue and for the
/// fixed duration; none is dropped and none is played while another sounds.
/// The dispatcher ends `Terminated` where the channel is closed and `Idle`
/// where more may come.
pub fn dispatch_backlog(channel: &mut NoteChannel) -> (run: BacklogRun)
    ensures
        run.plays@ == requests_for(old(channel)@.pending),
        run.state == if old(channel)@.is_closed() {
            DispatcherState::Terminated
        } else {
            DispatcherState::Idle
        },
        final(channel)@ == (ChannelState { pending: Seq::empty(), ..old(channel)@ }),
{
    let mut plays: Vec<PlayRequest> = Vec::new();
    let mut state = DispatcherState::Idle;
    let mut waiting = false;
    while !waiting && state == DispatcherState::Idle
        invariant
            plays@ + requests_for(channel@.pending) == requests_for(old(channel)@.pending),
            channel@.senders == old(channel)@.senders,
            channel@.receiver_alive == old(channel)@.receiver_alive,
            state == DispatcherState::Idle || state == DispatcherState::Terminated,
            waiting ==> state == DispatcherState::Idle && !channel@.is_closed(),
            state == DispatcherState::Terminated ==> channel@.is_closed(),
            waiting || state == DispatcherState::Terminated ==> channel@.pending.len() == 0,
        decreases channel@.pending.len() + (if waiting || state != DispatcherState::Idle {
            0nat
        } else {
            1nat
        }),
    {
        let ghost before = channel@;
        let ghost played = plays@;
        match poll_channel(channel) {
            None => {
                waiting = true;
            },
            Some(input) => {
                if let Some(step) = dispatch_step(state, input) {
                    state = step.state;
                    if let DispatchAction::Play(request) = step.action {
                        plays.push(request);
                        let ended = DispatchInput::Played(PlayOutcome::Completed);
                        if let Some(after) = dispatch_step(state, ended) {
                            state = after.state;
                        }
                        assert(plays@ + requests_for(channel@.pending) =~= played + requests_for(
                            before.pending,
                        ));
                    }
                }
            },
        }
    }
    assert(plays@ + requests_for(channel@.pending) =~= plays@);
    assert(channel@.pending =~= Seq::<Note>::empty());
    BacklogRun { plays, state }
}

/// How long the dispatcher needs for what is queued, in milliseconds: the
/// fixed duration once for every queued note, since notes never overlap.
pub fn backlog_latency_ms(channel: &NoteChannel) -> (latency: u128)
    ensures
        latency == channel@.pending.len() * PLAY_DURATION_MS,
{
    let queued: u128 = channel.len() as u128;
    let each: u128 = PLAY_DURATION_MS as u128;
    assert(queued * each <= usize::MAX * 100) by (nonlinear_arith)
        requires
            queued <= usize::MAX,
            each == 100,
    ;
    queued * each
}

/// The closed signal ends the dispatcher, and ends it for good: it moves an
/// idle dispatcher to `Terminated` with the order to shut down, and a
/// terminated dispatcher takes no step, so it never receives again.
pub proof fn lemma_closed_terminates(input: DispatchInput)
    ensures
        dispatch_transition(DispatcherState::Idle, DispatchInput::Closed) == Some(
            DispatchStep { state: DispatcherState::Terminated, action: DispatchAction::Shutdown },
        ),
        dispatch_transition(DispatcherState::Terminated, input).is_none(),
{
}

/// The dispatcher is told to receive only when it becomes idle, and told to
/// shut down only when it terminates: no receive follows the closed signal.
pub proof fn lemma_receive_only_when_idle(state: DispatcherState, input: DispatchInput)
    requires
        dispatch_transition(state, input).is_some(),
    ensures
        ({
            let step = dispatch_transition(state, input).unwrap();
            &&& (step.action is Receive || step.action is ReportAndReceive) <==> step.state
                == DispatcherState::Idle
            &&& step.action is Shutdown <==> step.state == DispatcherState::Terminated
            &&& step.state == DispatcherState::Terminated <==> input == DispatchInput::Closed
        }),
{
}

/// Playback is strictly sequential: a play starts only from `Idle`, for the
/// note that was received and for the fixed duration, and while a note
/// sounds the only input taken is the end of its play, which leads back to
/// `Idle` whether the play completed or failed.
pub proof fn lemma_one_note_at_a_time(state: DispatcherState, input: DispatchInput)
    requires
        dispatch_transition(state, input).is_some(),
    ensures
        ({
            let step = dispatch_transition(state, input).unwrap();
            &&& step.action is Play ==> state == DispatcherState::Idle
            &&& forall|note: Note|
                input == DispatchInput::Received(note) ==> step == (DispatchStep {
                    state: DispatcherState::Playing(note),
                    action: DispatchAction::Play(request_for(note)),
                })
            &&& state is Playing ==> input is Played && step.state == DispatcherState::Idle
        }),
{
}

/// A closed and empty channel answers a receive with the closed signal, and
/// that signal terminates an idle dispatcher. An open channel never does.
pub proof fn lemma_channel_close_ends_dispatch(channel: ChannelState)
    ensures
        input_of(channel.next()) == Some(DispatchInput::Closed) <==> channel.is_closed()
            && channel.pending.len() == 0,
        input_of(channel.next()) == Some(DispatchInput::Closed) ==> dispatch_transition(
            DispatcherState::Idle,
            input_of(channel.next()).unwrap(),
        ).unwrap().state == DispatcherState::Terminated,
{
}

} // verus!
