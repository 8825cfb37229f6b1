//! One play-to-completion cycle on the audio device.
//!
//! Opening the device, building the stream and waiting are the caller's
//! work. The order of those steps, what is asked of the device, and which
//! failure ends the cycle with which error, are decided by [`play_step`].

use vstd::prelude::*;

verus! {

/// Why a note could not be played.
#[derive(Clone, Copy, Debug, PartialEq, Eq, Structural)]
pub enum PlayError {
    /// The host has no default output device.
    DeviceUnavailable,
    /// The audio subsystem refused the configuration, the stream or its start.
    StreamError,
}

/// How a play cycle ended.
#[derive(Clone, Copy, Debug, PartialEq, Eq, Structural)]
pub enum PlayOutcome {
    Completed,
    Failed(PlayError),
}

/// The output configuration that the device offers by default.
#[derive(Clone, Copy, Debug, PartialEq, Eq, Structural)]
pub struct OutputConfig {
    pub channels: u16,
    pub sample_rate: u32,
}

/// Where a play cycle stands between two steps.
#[derive(Clone, Copy, Debug, PartialEq, Eq, Structural)]
pub enum PlayState {
    /// The default output device is being looked up.
    FindingDevice,
    /// The device is being asked for its default configuration.
    QueryingConfig,
    /// The output stream is being built.
    Building,
    /// The stream exists and is being started.
    Starting,
    /// The stream plays while the duration runs.
    Holding,
    /// The stream is being stopped and dropped; the outcome is already fixed.
    Releasing(PlayOutcome),
    /// The cycle has ended and no stream is left.
    Finished(PlayOutcome),
}

/// What the audio subsystem answered to the last action.
#[derive(Clone, Copy, Debug, PartialEq, Eq, Structural)]
pub enum PlayInput {
    /// The action succeeded; after `Hold`, the duration has run out.
    Succeeded,
    /// The device named its default configuration.
    Configured(OutputConfig),
    /// The action failed.
    Failed,
}

/// What the caller has to do next on the audio device.
#[derive(Clone, Copy, Debug, PartialEq, Eq, Structural)]
pub enum PlayAction {
    FindDevice,
    QueryConfig,
    /// Build an output stream with this configuration.
    Build(OutputConfig),
    Start,
    /// Let the stream play for this many milliseconds.
    Hold(u64),
    /// Stop the stream and drop it.
    Release,
    /// Hand the outcome back; nothing is left to do.
    Done(PlayOutcome),
}

/// A new state together with the action that leads into it.
#[derive(Clone, Copy, Debug, PartialEq, Eq, Structural)]
pub struct PlayStep {
    pub state: PlayState,
    pub action: PlayAction,
}

/// The step that ends a cycle with `outcome`.
pub open spec fn finish_with(outcome: PlayOutcome) -> PlayStep {
    PlayStep { state: PlayState::Finished(outcome), action: PlayAction::Done(outcome) }
}

/// The step that releases the stream before the cycle ends with `outcome`.
pub open spec fn release_with(outcome: PlayOutcome) -> PlayStep {
    PlayStep { state: PlayState::Releasing(outcome), action: PlayAction::Release }
}

/// Whether an output stream exists in `state`.
pub open spec fn stream_is_live(state: PlayState) -> bool {
    state is Starting || state is Holding || state is Releasing
}

/// The transition relation of a play cycle that lets its note sound for
/// `duration_ms` milliseconds of wall-clock time. `None` where the input is
/// not an answer to what the state is waiting for.
///
/// A missing device ends the cycle as `DeviceUnavailable`; every later
/// failure, and a configuration without channels, as `StreamError`. A stream
/// that was built is released before the cycle ends, whether it played or
/// failed to start.
pub open spec fn play_transition(state: PlayState, input: PlayInput, duration_ms: u64) -> Option<
    PlayStep,
> {
    match (state, input) {
        (PlayState::FindingDevice, PlayInput::Succeeded) => Some(
            PlayStep { state: PlayState::QueryingConfig, action: PlayAction::QueryConfig },
        ),
        (PlayState::FindingDevice, PlayInput::Failed) => Some(
            finish_with(PlayOutcome::Failed(PlayError::DeviceUnavailable)),
        ),
        (PlayState::QueryingConfig, PlayInput::Configured(config)) => if config.channels > 0 {
            Some(PlayStep { state: PlayState::Building, action: PlayAction::Build(config) })
        } else {
            Some(finish_with(PlayOutcome::Failed(PlayError::StreamError)))
        },
        (PlayState::QueryingConfig, PlayInput::Failed) => Some(
            finish_with(PlayOutcome::Failed(PlayError::StreamError)),
        ),
        (PlayState::Building, PlayInput::Succeeded) => Some(
            PlayStep { state: PlayState::Starting, action: PlayAction::Start },
        ),
        (PlayState::Building, PlayInput::Failed) => Some(
            finish_with(PlayOutcome::Failed(PlayError::StreamError)),
        ),
        (PlayState::Starting, PlayInput::Succeeded) => Some(
            PlayStep { state: PlayState::Holding, action: PlayAction::Hold(duration_ms) },
        ),
        (PlayState::Starting, PlayInput::Failed) => Some(
            release_with(PlayOutcome::Failed(PlayError::StreamError)),
        ),
        (PlayState::Holding, PlayInput::Succeeded) => Some(release_with(PlayOutcome::Completed)),
        (PlayState::Releasing(outcome), PlayInput::Succeeded) => Some(finish_with(outcome)),
        _ => None,
    }
}

/// The state in which a cycle begins and its first action.
pub fn play_start() -> (step: PlayStep)
    ensures
        step == (PlayStep { state: PlayState::FindingDevice, action: PlayAction::FindDevice }),
{
    PlayStep { state: PlayState::FindingDevice, action: PlayAction::FindDevice }
}

fn finished(outcome: PlayOutcome) -> (step: PlayStep)
    ensures
        step == finish_with(outcome),
{
    PlayStep { state: PlayState::Finished(outcome), action: PlayAction::Done(outcome) }
}

fn releasing(outcome: PlayOutcome) -> (step: PlayStep)
    ensures
        step == release_with(outcome),
{
    PlayStep { state: PlayState::Releasing(outcome), action: PlayAction::Release }
}

/// Decides what a play cycle of `duration_ms` milliseconds does after
/// `input` arrived in `state`.
pub fn play_step(state: PlayState, input: PlayInput, duration_ms: u64) -> (step: Option<PlayStep>)
    ensures
        step == play_transition(state, input, duration_ms),
{
    let stream_error = PlayOutcome::Failed(PlayError::StreamError);
    match state {
        PlayState::FindingDevice => match input {
            PlayInput::Succeeded => Some(
                PlayStep { state: PlayState::QueryingConfig, action: PlayAction::QueryConfig },
            ),
            PlayInput::Failed => Some(
                finished(PlayOutcome::Failed(PlayError::DeviceUnavailable)),
            ),
            _ => None,
        },
        PlayState::QueryingConfig => match input {
            PlayInput::Configured(config) => {
                if config.channels > 0 {
                    Some(PlayStep { state: PlayState::Building, action: PlayAction::Build(config) })
                } else {
                    Some(finished(stream_error))
                }
            },
            PlayInput::Failed => Some(finished(stream_error)),
            _ => None,
        },
        PlayState::Building => match input {
            PlayInput::Succeeded => Some(
                PlayStep { state: PlayState::Starting, action: PlayAction::Start },
            ),
            PlayInput::Failed => Some(finished(stream_error)),
            _ => None,
        },
        PlayState::Starting => match input {
            PlayInput::Succeeded => Some(
                PlayStep { state: PlayState::Holding, action: PlayAction::Hold(duration_ms) },
            ),
            PlayInput::Failed => Some(releasing(stream_error)),
            _ => None,
        },
        PlayState::Holding => match input {
            PlayInput::Succeeded => Some(releasing(PlayOutcome::Completed)),
            _ => None,
        },
        PlayState::Releasing(outcome) => match input {
            PlayInput::Succeeded => Some(finished(outcome)),
            _ => None,
        },
        PlayState::Finished(_) => None,
    }
}

/// No cycle ends with a stream still open: a step into `Finished` starts
/// either where no stream exists yet or where the stream was just released.
pub proof fn lemma_stream_released_before_finish(
    state: PlayState,
    input: PlayInput,
    duration_ms: u64,
)
    requires
        play_transition(state, input, duration_ms).is_some(),
        play_transition(state, input, duration_ms).unwrap().state is Finished,
    ensures
        state is Releasing || !stream_is_live(state),
        play_transition(state, input, duration_ms).unwrap().action is Done,
{
}

/// A cycle completes only after the stream played for the full duration
/// and was released.
pub proof fn lemma_completed_only_after_hold(
    state: PlayState,
    input: PlayInput,
    duration_ms: u64,
)
    requires
        play_transition(state, input, duration_ms).is_some(),
    ensures
        play_transition(state, input, duration_ms).unwrap().state == PlayState::Releasing(
            PlayOutcome::Completed,
        ) ==> state == PlayState::Holding,
        play_transition(state, input, duration_ms).unwrap().state == PlayState::Finished(
            PlayOutcome::Completed,
        ) ==> state == PlayState::Releasing(PlayOutcome::Completed),
{
}

/// A finished cycle takes no further step.
pub proof fn lemma_finished_is_final(outcome: PlayOutcome, input: PlayInput, duration_ms: u64)
    ensures
        play_transition(PlayState::Finished(outcome), input, duration_ms).is_none(),
{
}

} // verus!
