//! A real-time audio engine core: fixed-capacity registries, tweenable
//! parameters, per-voice playback state machines and the mixing tick.
use vstd::prelude::*;

pub mod active_ids;
pub mod backend;
pub mod ctx;
pub mod error;
pub mod frame;
pub mod group;
pub mod id;
pub mod instance;
pub mod instances;
pub mod metronome;
pub mod mixer;
pub mod parameter;
pub mod sequence;
pub mod settings;
pub mod sound;
pub mod value;
pub mod vec_map;
