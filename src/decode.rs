//! Decisions of the decode loop. The loop itself reads packets, decodes
//! and sleeps; what it does next is decided here from what just happened.

use crate::pcm::{block_nanos, spec_frames_to_nanos, OUTPUT_RATE};
use vstd::prelude::*;

verus! {

/// Why loading a file failed. Each leaves earlier playback untouched.
#[derive(Clone, Copy, Debug, PartialEq, Eq, Structural)]
pub enum LoadError {
    NoOutputDevice,
    NoSupportedConfig,
    NoSupportedTrack,
    ProbeFailure,
    DecoderInitFailure,
}

/// What reading the next packet gave.
#[derive(Clone, Copy, Debug, PartialEq, Eq, Structural)]
pub enum ReadOutcome {
    Packet { track_id: u32 },
    EndOfStream,
    ResetRequired,
    Failed,
}

/// What decoding a packet gave.
#[derive(Clone, Copy, Debug, PartialEq, Eq, Structural)]
pub enum DecodeOutcome {
    Decoded,
    ResetRequired,
    Failed,
}

/// What the loop has just observed.
#[derive(Clone, Copy, Debug, PartialEq, Eq, Structural)]
pub enum LoopEvent {
    /// Playback is paused; nothing was read.
    Paused,
    Read(ReadOutcome),
    Decode(DecodeOutcome),
}

/// What the loop does next.
#[derive(Clone, Copy, Debug, PartialEq, Eq, Structural)]
pub enum LoopStep {
    /// Sleep one poll interval, then look at the play flag again.
    Wait,
    /// Drop the packet: it belongs to another track.
    Skip,
    /// Decode the packet.
    Decode,
    /// Reset the decoder and go on reading.
    ResetDecoder,
    /// Normalise, resample, scale and queue the decoded block.
    Emit,
    /// Leave the loop for good.
    Stop,
}

pub open spec fn spec_next_step(event: LoopEvent, track: u32) -> LoopStep {
    match event {
        LoopEvent::Paused => LoopStep::Wait,
        LoopEvent::Read(ReadOutcome::Packet { track_id }) => if track_id == track {
            LoopStep::Decode
        } else {
            LoopStep::Skip
        },
        LoopEvent::Read(ReadOutcome::EndOfStream) => LoopStep::Stop,
        LoopEvent::Read(ReadOutcome::ResetRequired) => LoopStep::ResetDecoder,
        LoopEvent::Read(ReadOutcome::Failed) => LoopStep::Stop,
        LoopEvent::Decode(DecodeOutcome::Decoded) => LoopStep::Emit,
        LoopEvent::Decode(DecodeOutcome::ResetRequired) => LoopStep::ResetDecoder,
        LoopEvent::Decode(DecodeOutcome::Failed) => LoopStep::Stop,
    }
}

/// The loop's next step after `event`, when decoding track `track`.
pub fn next_step(event: LoopEvent, track: u32) -> (r: LoopStep)
    ensures
        r == spec_next_step(event, track),
{
    match event {
        LoopEvent::Paused => LoopStep::Wait,
        LoopEvent::Read(ReadOutcome::Packet { track_id }) => if track_id == track {
            LoopStep::Decode
        } else {
            LoopStep::Skip
        },
        LoopEvent::Read(ReadOutcome::EndOfStream) => LoopStep::Stop,
        LoopEvent::Read(ReadOutcome::ResetRequired) => LoopStep::ResetDecoder,
        LoopEvent::Read(ReadOutcome::Failed) => LoopStep::Stop,
        LoopEvent::Decode(DecodeOutcome::Decoded) => LoopStep::Emit,
        LoopEvent::Decode(DecodeOutcome::ResetRequired) => LoopStep::ResetDecoder,
        LoopEvent::Decode(DecodeOutcome::Failed) => LoopStep::Stop,
    }
}

/// The first track with a real codec, given for each track whether it has
/// one; `NoSupportedTrack` when none has.
pub fn select_track(has_codec: &[bool]) -> (r: Result<usize, LoadError>)
    ensures
        r matches Ok(i) ==> i < has_codec@.len() && has_codec@[i as int] && forall|j: int|
            0 <= j < i ==> !has_codec@[j],
        r is Err <==> forall|j: int| 0 <= j < has_codec@.len() ==> !has_codec@[j],
        r matches Err(e) ==> e == LoadError::NoSupportedTrack,
{
    let mut i: usize = 0;
    while i < has_codec.len()
        invariant
            i <= has_codec@.len(),
            forall|j: int| 0 <= j < i ==> !has_codec@[j],
        decreases has_codec@.len() - i,
    {
        if has_codec[i] {
            return Ok(i);
        }
        i = i + 1;
    }
    Err(LoadError::NoSupportedTrack)
}

pub open spec fn saturating_sum(a: nat, b: nat) -> nat {
    if a + b > u128::MAX {
        u128::MAX as nat
    } else {
        a + b
    }
}

/// Playback position of one decode run, in nanoseconds.
pub struct PositionCounter {
    nanos: u128,
}

impl PositionCounter {
    pub closed spec fn spec_nanos(&self) -> nat {
        self.nanos as nat
    }

    /// A counter at the start of the stream.
    pub fn new() -> (r: Self)
        ensures
            r.spec_nanos() == 0,
    {
        PositionCounter { nanos: 0 }
    }

    pub fn nanos(&self) -> (r: u128)
        ensures
            r == self.spec_nanos(),
    {
        self.nanos
    }

    /// Moves the position on past a block of `samples` output samples over
    /// `channels` channels; it stops at the largest value it can hold.
    pub fn advance(&mut self, samples: u64, channels: u32)
        requires
            channels > 0,
        ensures
            final(self).spec_nanos() == saturating_sum(
                old(self).spec_nanos(),
                spec_frames_to_nanos(samples as nat, OUTPUT_RATE as nat * channels as nat),
            ),
    {
        let d = block_nanos(samples, channels);
        self.nanos = self.nanos.saturating_add(d);
    }
}

} // verus!
