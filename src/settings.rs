//! How an instance is asked to play.
use vstd::prelude::*;
use crate::frame::UNIT;
use crate::instance::{clamp_position, clamp_position_exec, InternalInstanceSettings};
use crate::mixer::TrackIndex;
use crate::parameter::Tween;
use crate::value::Value;

verus! {

/// Where an instance loops back to when it reaches the end.
#[derive(Debug, Clone, Copy, PartialEq, Eq, Structural)]
pub enum InstanceLoopStart {
    /// The sound's default loop start.
    DefaultForSound,
    /// This position.
    Custom(i64),
    /// No loop.
    Disabled,
}

impl InstanceLoopStart {
    /// The loop start this choice gives for a sound whose default is
    /// `default_loop_start`.
    pub open spec fn spec_into_option(self, default_loop_start: Option<i64>) -> Option<i64> {
        match self {
            InstanceLoopStart::DefaultForSound => default_loop_start,
            InstanceLoopStart::Custom(l) => Some(l),
            InstanceLoopStart::Disabled => None,
        }
    }

    /// The loop start this choice gives for a sound whose default is
    /// `default_loop_start`.
    pub fn into_option(self, default_loop_start: Option<i64>) -> (r: Option<i64>)
        ensures
            r == self.spec_into_option(default_loop_start),
    {
        match self {
            InstanceLoopStart::DefaultForSound => default_loop_start,
            InstanceLoopStart::Custom(loop_start) => Some(loop_start),
            InstanceLoopStart::Disabled => None,
        }
    }
}

/// How to play an instance.
#[derive(Debug, Clone, Copy)]
pub struct InstanceSettings {
    /// The volume.
    pub volume: Value,
    /// The playback rate, as a factor of the sound's own.
    pub playback_rate: Value,
    /// The panning (0 is hard left, `UNIT` hard right).
    pub panning: Value,
    /// Where playback starts; counted from the end when playing in reverse.
    pub start_position: i64,
    /// Whether to play backward.
    pub reverse: bool,
    /// Whether and where to loop.
    pub loop_start: InstanceLoopStart,
    /// The fade-in, if any.
    pub fade_in_tween: Option<Tween>,
    /// The mixer track the instance plays into.
    pub track: TrackIndex,
}

impl InstanceSettings {
    /// Full volume, normal rate, centred, from the start, forward, with the
    /// sound's default loop and no fade-in.
    pub fn new() -> (r: InstanceSettings)
        ensures
            r.volume == Value::Fixed(UNIT),
            r.playback_rate == Value::Fixed(UNIT),
            r.panning == Value::Fixed((UNIT / 2) as i32),
            r.start_position == 0,
            !r.reverse,
            r.loop_start == InstanceLoopStart::DefaultForSound,
            r.fade_in_tween is None,
            r.track == TrackIndex::Main,
    {
        InstanceSettings {
            volume: Value::Fixed(UNIT),
            playback_rate: Value::Fixed(UNIT),
            panning: Value::Fixed(UNIT / 2),
            start_position: 0,
            reverse: false,
            loop_start: InstanceLoopStart::DefaultForSound,
            fade_in_tween: None,
            track: TrackIndex::Main,
        }
    }

    /// The same settings with the given volume.
    pub fn volume(self, volume: Value) -> (r: InstanceSettings)
        ensures
            r == (InstanceSettings { volume, ..self }),
    {
        InstanceSettings { volume, ..self }
    }

    /// The same settings with the given playback rate.
    pub fn playback_rate(self, playback_rate: Value) -> (r: InstanceSettings)
        ensures
            r == (InstanceSettings { playback_rate, ..self }),
    {
        InstanceSettings { playback_rate, ..self }
    }

    /// The same settings with the given panning.
    pub fn panning(self, panning: Value) -> (r: InstanceSettings)
        ensures
            r == (InstanceSettings { panning, ..self }),
    {
        InstanceSettings { panning, ..self }
    }

    /// The same settings with the given start position.
    pub fn start_position(self, start_position: i64) -> (r: InstanceSettings)
        ensures
            r == (InstanceSettings { start_position, ..self }),
    {
        InstanceSettings { start_position, ..self }
    }

    /// The same settings, playing backward or not.
    pub fn reverse(self, reverse: bool) -> (r: InstanceSettings)
        ensures
            r == (InstanceSettings { reverse, ..self }),
    {
        InstanceSettings { reverse, ..self }
    }

    /// The same settings with the given loop choice.
    pub fn loop_start(self, loop_start: InstanceLoopStart) -> (r: InstanceSettings)
        ensures
            r == (InstanceSettings { loop_start, ..self }),
    {
        InstanceSettings { loop_start, ..self }
    }

    /// The same settings playing into the given track.
    pub fn track(self, track: TrackIndex) -> (r: InstanceSettings)
        ensures
            r == (InstanceSettings { track, ..self }),
    {
        InstanceSettings { track, ..self }
    }

    /// The same settings with the given fade-in.
    pub fn fade_in_tween(self, fade_in_tween: Option<Tween>) -> (r: InstanceSettings)
        ensures
            r == (InstanceSettings { fade_in_tween, ..self }),
    {
        InstanceSettings { fade_in_tween, ..self }
    }

    /// The settings an instance of a sound `duration` long, whose default
    /// loop start is `default_loop_start`, starts from: in reverse the start
    /// position counts back from the end.
    pub fn into_internal(self, duration: i64, default_loop_start: Option<i64>) -> (r: InternalInstanceSettings)
        ensures
            r.volume == self.volume,
            r.playback_rate == self.playback_rate,
            r.panning == self.panning,
            r.start_position == if self.reverse {
                clamp_position(duration - self.start_position)
            } else {
                self.start_position as int
            },
            r.reverse == self.reverse,
            r.loop_start == self.loop_start.spec_into_option(default_loop_start),
            r.fade_in_tween == self.fade_in_tween,
            r.track == self.track,
    {
        let start_position = if self.reverse {
            clamp_position_exec(duration as i128 - self.start_position as i128)
        } else {
            self.start_position
        };
        InternalInstanceSettings {
            volume: self.volume,
            playback_rate: self.playback_rate,
            panning: self.panning,
            start_position,
            reverse: self.reverse,
            loop_start: self.loop_start.into_option(default_loop_start),
            fade_in_tween: self.fade_in_tween,
            track: self.track,
        }
    }
}

impl Default for InstanceSettings {
    fn default() -> (r: InstanceSettings)
        ensures
            r.volume == Value::Fixed(UNIT),
            r.playback_rate == Value::Fixed(UNIT),
            r.panning == Value::Fixed((UNIT / 2) as i32),
            r.start_position == 0,
            !r.reverse,
            r.loop_start == InstanceLoopStart::DefaultForSound,
            r.fade_in_tween is None,
            r.track == TrackIndex::Main,
    {
        InstanceSettings::new()
    }
}

} // verus!
