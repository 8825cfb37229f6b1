//! Laying samples out in a hardware output buffer.
//!
//! A buffer is a run of frames, and a frame is one time slot over all
//! channels. The tone is monophonic: each frame takes one sample and carries
//! it on every channel.

use vstd::arithmetic::div_mod::{lemma_div_is_ordered, lemma_fundamental_div_mod};
use vstd::prelude::*;
use crate::wave::{SamplePoint, SinWave};

verus! {

/// Why a buffer could not be filled.
#[derive(Clone, Copy, Debug, PartialEq, Eq, Structural)]
pub enum SinkError {
    /// The configuration has no channel, so there are no frames.
    NoChannels,
    /// There are fewer samples than the buffer has frames.
    TooFewSamples,
}

/// The number of frames in a buffer of `len` slots: the whole frames and,
/// where slots are left over, one partial frame for them.
pub open spec fn frames_in(len: int, channels: int) -> int
    recommends
        0 <= len,
        0 < channels,
{
    len / channels + if len % channels == 0 {
        0int
    } else {
        1int
    }
}

/// Every slot of a buffer lies in one of the buffer's frames.
pub proof fn lemma_slot_in_frame(slot: int, len: int, channels: int)
    requires
        0 <= slot < len,
        0 < channels,
    ensures
        0 <= slot / channels < frames_in(len, channels),
{
    lemma_div_is_ordered(slot, len, channels);
    lemma_div_is_ordered(0, slot, channels);
    lemma_fundamental_div_mod(slot, channels);
    lemma_fundamental_div_mod(len, channels);
    if len % channels == 0 && slot / channels == len / channels {
        assert(slot >= len);
    }
}

/// Counts the frames of a buffer of `len` slots, which is the number of
/// samples that filling it takes. Without a channel there is no answer.
pub fn frame_count(len: usize, channels: usize) -> (frames: Option<usize>)
    ensures
        frames.is_some() <==> channels > 0,
        frames.is_some() ==> frames.unwrap() == frames_in(len as int, channels as int),
{
    if channels == 0 {
        return None;
    }
    let whole = len / channels;
    if len % channels == 0 {
        Some(whole)
    } else {
        proof {
            lemma_fundamental_div_mod(len as int, channels as int);
            assert(whole < len) by (nonlinear_arith)
                requires
                    len == channels * whole + (len % channels) as int,
                    0 < (len % channels),
                    0 < channels,
                    0 <= whole,
            ;
        }
        Some(whole + 1)
    }
}

/// Fills `output` frame by frame: the frame at position `f` takes
/// `samples[f]` and carries it in each of its slots. On success the number
/// of samples used comes back, one for each frame. Where there is no
/// channel or not a sample for every frame, the buffer is left untouched.
pub fn write_data<T: Copy>(output: &mut [T], channels: usize, samples: &[T]) -> (written: Result<
    usize,
    SinkError,
>)
    ensures
        final(output)@.len() == old(output)@.len(),
        written.is_ok() <==> channels > 0 && samples@.len() >= frames_in(
            old(output)@.len() as int,
            channels as int,
        ),
        written == Err::<usize, SinkError>(SinkError::NoChannels) <==> channels == 0,
        written == Err::<usize, SinkError>(SinkError::TooFewSamples) <==> channels > 0
            && samples@.len() < frames_in(old(output)@.len() as int, channels as int),
        written.is_ok() ==> {
            &&& written.unwrap() == frames_in(old(output)@.len() as int, channels as int)
            &&& forall|slot: int|
                0 <= slot < old(output)@.len() ==> final(output)@[slot] == samples@[slot / (
                channels as int)]
        },
        written.is_err() ==> final(output)@ == old(output)@,
{
    let len = output.len();
    let frames = match frame_count(len, channels) {
        Some(frames) => frames,
        None => {
            return Err(SinkError::NoChannels);
        },
    };
    if samples.len() < frames {
        return Err(SinkError::TooFewSamples);
    }
    let mut slot: usize = 0;
    while slot < len
        invariant
            slot <= len,
            channels > 0,
            output@.len() == len,
            frames == frames_in(len as int, channels as int),
            frames <= samples@.len(),
            forall|done: int| 0 <= done < slot ==> output@[done] == samples@[done / (channels as int)],
        decreases len - slot,
    {
        proof {
            lemma_slot_in_frame(slot as int, len as int, channels as int);
        }
        let sample = samples[slot / channels];
        output[slot] = sample;
        slot = slot + 1;
    }
    Ok(frames)
}

/// Pulls from `wave` what one buffer takes: exactly one sample for each
/// frame, however many channels a frame has. Where the configuration has no
/// channel or the generator cannot supply that many, nothing is pulled.
pub fn pull_frames(wave: &mut SinWave, len: usize, channels: usize) -> (points: Option<
    Vec<SamplePoint>,
>)
    ensures
        points.is_some() <==> channels > 0 && old(wave)@.t + frames_in(
            len as int,
            channels as int,
        ) <= u64::MAX,
        points.is_some() ==> {
            let frames = frames_in(len as int, channels as int);
            &&& points.unwrap()@.len() == frames
            &&& forall|f: int| 0 <= f < frames ==> points.unwrap()@[f] == old(wave)@.after(f as nat)
            &&& final(wave)@ == old(wave)@.after(frames as nat)
        },
        points.is_none() ==> final(wave)@ == old(wave)@,
{
    match frame_count(len, channels) {
        Some(frames) => wave.take(frames),
        None => None,
    }
}

} // verus!
