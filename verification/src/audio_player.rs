//! The playback model: the transport state machine over one sink — idle,
//! playing, paused — and the clamped volume. The audio device and the
//! decoder are outside the library: the caller performs the device work
//! and mirrors it here, `begin_playback` when decoded audio is enqueued,
//! `finish_playback` when the sink drains.

use vstd::prelude::*;

verus! {

/// Error kinds of audio playback.
#[derive(Debug)]
pub enum AudioError {
    /// Filesystem read failure on an audio file.
    Io(String),
    /// Malformed audio that the decoder rejects.
    Decode(String),
    /// The sink rejected or lost the playback.
    Playback(String),
    /// No usable audio output device.
    Device(String),
}

impl AudioError {
    /// A readable rendering of the error, kind first.
    pub fn message(&self) -> (r: String)
        ensures
            match self {
                AudioError::Io(m) => r@ == "IO error: "@ + m@,
                AudioError::Decode(m) => r@ == "Audio decode error: "@ + m@,
                AudioError::Playback(m) => r@ == "Audio playback error: "@ + m@,
                AudioError::Device(m) => r@ == "Audio device error: "@ + m@,
            },
    {
        match self {
            AudioError::Io(m) => String::from_str("IO error: ").concat(m.as_str()),
            AudioError::Decode(m) => String::from_str("Audio decode error: ").concat(m.as_str()),
            AudioError::Playback(m) => String::from_str("Audio playback error: ").concat(
                m.as_str(),
            ),
            AudioError::Device(m) => String::from_str("Audio device error: ").concat(m.as_str()),
        }
    }
}

/// Full volume on the fixed-point volume scale: one thousandth steps of
/// the device multiplier, so `500` stands for half volume.
pub const FULL_VOLUME: u32 = 1000;

/// `v` forced into the volume range `[0, FULL_VOLUME]`.
pub open spec fn spec_clamped(v: i64) -> u32 {
    if v < 0 {
        0
    } else if v > FULL_VOLUME as i64 {
        FULL_VOLUME
    } else {
        v as u32
    }
}

/// The transport state of the playback sink.
#[derive(Clone, Copy, Debug, PartialEq, Eq, Structural)]
pub enum PlaybackState {
    /// Nothing queued.
    Idle,
    /// Audio queued and advancing.
    Playing,
    /// Audio queued, advancement suspended.
    Paused,
}

/// The player: the state machine `Idle -> Playing -> (Paused <-> Playing)
/// -> Idle` and the last clamped volume. Transport controls are safe in
/// every state: where a transition does not apply they change nothing
/// rather than fail.
#[derive(Debug)]
pub struct AudioPlayer {
    pub state: PlaybackState,
    pub volume: u32,
}

impl AudioPlayer {
    /// A fresh player: nothing queued, full volume.
    pub fn new() -> (r: Self)
        ensures
            r.state is Idle,
            r.volume == FULL_VOLUME,
    {
        AudioPlayer { state: PlaybackState::Idle, volume: FULL_VOLUME }
    }

    /// Decoded audio has been handed to the sink: playback advances.
    pub fn begin_playback(&mut self)
        ensures
            final(self).state is Playing,
            final(self).volume == old(self).volume,
    {
        self.state = PlaybackState::Playing;
    }

    /// The sink has drained: back to idle.
    pub fn finish_playback(&mut self)
        ensures
            final(self).state is Idle,
            final(self).volume == old(self).volume,
    {
        self.state = PlaybackState::Idle;
    }

    /// Suspends advancing playback; in any other state a no-op.
    pub fn pause(&mut self)
        ensures
            final(self).state == (if old(self).state is Playing {
                PlaybackState::Paused
            } else {
                old(self).state
            }),
            final(self).volume == old(self).volume,
    {
        if matches!(self.state, PlaybackState::Playing) {
            self.state = PlaybackState::Paused;
        }
    }

    /// Resumes suspended playback; in any other state a no-op.
    pub fn resume(&mut self)
        ensures
            final(self).state == (if old(self).state is Paused {
                PlaybackState::Playing
            } else {
                old(self).state
            }),
            final(self).volume == old(self).volume,
    {
        if matches!(self.state, PlaybackState::Paused) {
            self.state = PlaybackState::Playing;
        }
    }

    /// Drops whatever is queued: back to idle from any state.
    pub fn stop(&mut self)
        ensures
            final(self).state is Idle,
            final(self).volume == old(self).volume,
    {
        self.state = PlaybackState::Idle;
    }

    /// Whether the sink's queue is non-empty — also while suspended.
    pub fn is_playing(&self) -> (r: bool)
        ensures
            r == !(self.state is Idle),
    {
        !matches!(self.state, PlaybackState::Idle)
    }

    /// Sets the volume to `v` clamped into `[0, FULL_VOLUME]`; the
    /// transport state does not move.
    pub fn set_volume(&mut self, v: i64)
        ensures
            final(self).volume == spec_clamped(v),
            final(self).state == old(self).state,
    {
        if v < 0 {
            self.volume = 0;
        } else if v > FULL_VOLUME as i64 {
            self.volume = FULL_VOLUME;
        } else {
            self.volume = v as u32;
        }
    }

    /// The last clamped volume.
    pub fn volume(&self) -> (r: u32)
        ensures
            r == self.volume,
    {
        self.volume
    }
}

impl Default for AudioPlayer {
    /// The same player [`AudioPlayer::new`] gives.
    fn default() -> (r: Self)
        ensures
            r.state is Idle,
            r.volume == FULL_VOLUME,
    {
        AudioPlayer::new()
    }
}

} // verus!
