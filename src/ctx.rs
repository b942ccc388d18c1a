//! What the audio thread knows of the output device.
use vstd::prelude::*;

verus! {

/// The output's sample rate, in ticks per second.
pub struct AudioContext {
    pub sample_rate: u32,
}

impl AudioContext {
    /// A context for the given sample rate.
    pub fn new(sample_rate: u32) -> (r: AudioContext)
        ensures
            r.sample_rate == sample_rate,
    {
        AudioContext { sample_rate }
    }
}

} // verus!
