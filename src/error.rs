//! What can go wrong on the control thread.
use vstd::prelude::*;
use crate::id::{ParameterId, SoundId};
use crate::group::GroupId;
use crate::mixer::{SendTrackId, SubTrackId};
use crate::metronome::MetronomeId;

verus! {

/// Something that can go wrong when sending a command to the audio thread.
#[derive(Debug, Clone, Copy, PartialEq, Eq, Structural)]
pub enum CommandError {
    /// The command queue is full.
    CommandQueueFull,
    /// A thread panicked while using the command producer.
    MutexPoisoned,
}

/// Something that can go wrong when adding a sound.
#[derive(Debug, Clone, Copy, PartialEq, Eq, Structural)]
pub enum AddSoundError {
    /// As many sounds as the engine holds are loaded.
    SoundLimitReached,
}

/// Something that can go wrong when removing a sound.
#[derive(Debug, Clone, Copy, PartialEq, Eq, Structural)]
pub enum RemoveSoundError {
    /// No sound with this identifier is loaded.
    NoSoundWithId(SoundId),
}

/// Something that can go wrong when adding a parameter.
#[derive(Debug, Clone, Copy, PartialEq, Eq, Structural)]
pub enum AddParameterError {
    /// As many parameters as the engine holds exist.
    ParameterLimitReached,
}

/// Something that can go wrong when removing a parameter.
#[derive(Debug, Clone, Copy, PartialEq, Eq, Structural)]
pub enum RemoveParameterError {
    /// No parameter with this identifier exists.
    NoParameterWithId(ParameterId),
}

/// Something that can go wrong when adding a metronome.
#[derive(Debug, Clone, Copy, PartialEq, Eq, Structural)]
pub enum AddMetronomeError {
    /// As many metronomes as the engine holds exist.
    MetronomeLimitReached,
}

/// Something that can go wrong when removing a metronome.
#[derive(Debug, Clone, Copy, PartialEq, Eq, Structural)]
pub enum RemoveMetronomeError {
    /// No metronome with this identifier exists.
    NoMetronomeWithId(MetronomeId),
}

/// Something that can go wrong when adding a group.
#[derive(Debug, Clone, Copy, PartialEq, Eq, Structural)]
pub enum AddGroupError {
    /// As many groups as the engine holds exist.
    GroupLimitReached,
}

/// Something that can go wrong when removing a group.
#[derive(Debug, Clone, Copy, PartialEq, Eq, Structural)]
pub enum RemoveGroupError {
    /// No group with this identifier exists.
    NoGroupWithId(GroupId),
}

/// Something that can go wrong when adding a sub-track.
#[derive(Debug, Clone, Copy, PartialEq, Eq, Structural)]
pub enum AddSubTrackError {
    /// As many sub-tracks as the mixer holds exist.
    TrackLimitReached,
}

/// Something that can go wrong when removing a sub-track.
#[derive(Debug, Clone, Copy, PartialEq, Eq, Structural)]
pub enum RemoveSubTrackError {
    /// No sub-track with this identifier exists.
    NoSubTrackWithId(SubTrackId),
}

/// Something that can go wrong when adding a send track.
#[derive(Debug, Clone, Copy, PartialEq, Eq, Structural)]
pub enum AddSendTrackError {
    /// As many send tracks as the mixer holds exist.
    TrackLimitReached,
}

/// Something that can go wrong when removing a send track.
#[derive(Debug, Clone, Copy, PartialEq, Eq, Structural)]
pub enum RemoveSendTrackError {
    /// No send track with this identifier exists.
    NoSendTrackWithId(SendTrackId),
}

} // verus!
