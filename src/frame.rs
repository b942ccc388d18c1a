//! Stereo frames and the fixed-point arithmetic of the engine.
//!
//! Scalars (volumes, playback rates, panning, parameter values) are fixed
//! point numbers with [`UNIT`] standing for 1.0. Samples use the same scale:
//! a full-scale sample is `UNIT`.
use vstd::prelude::*;

verus! {

/// The fixed-point representation of 1.0.
pub const UNIT: i32 = 65536;

/// The largest magnitude a sample can take.
pub const SAMPLE_MAX: i32 = 2147483647;

/// `a / b` rounded toward zero.
pub open spec fn trunc_div(a: int, b: int) -> int {
    if a >= 0 { a / b } else { -((-a) / b) }
}

/// `x` limited to the range of a sample.
pub open spec fn clamp_sample(x: int) -> int {
    if x > SAMPLE_MAX { SAMPLE_MAX as int } else if x < -SAMPLE_MAX { -SAMPLE_MAX } else { x }
}

/// The fixed-point product of `x` and `gain`, rounded toward zero.
pub open spec fn scale(x: int, gain: int) -> int {
    trunc_div(x * gain, UNIT as int)
}

/// The gain of the left channel at `panning` (0 is hard left, `UNIT` hard right).
pub open spec fn left_gain(panning: int) -> int {
    if panning <= UNIT / 2 { UNIT as int } else { 2 * (UNIT - panning) }
}

/// The gain of the right channel at `panning`.
pub open spec fn right_gain(panning: int) -> int {
    if panning >= UNIT / 2 { UNIT as int } else { 2 * panning }
}

proof fn lemma_scale_bounds(x: int, gain: int)
    requires
        i32::MIN <= x <= i32::MAX,
        i32::MIN <= gain <= i32::MAX,
    ensures
        -0x4000_0000_0000_0000 <= x * gain <= 0x4000_0000_0000_0000,
{
    assert(-0x4000_0000_0000_0000 <= x * gain <= 0x4000_0000_0000_0000) by (nonlinear_arith)
        requires
            -0x8000_0000 <= x <= 0x8000_0000,
            -0x8000_0000 <= gain <= 0x8000_0000,
    ;
}

/// `x * gain / UNIT` rounded toward zero, limited to the range of a sample.
pub fn scale_sample(x: i32, gain: i32) -> (r: i32)
    ensures
        r == clamp_sample(scale(x as int, gain as int)),
{
    proof {
        lemma_scale_bounds(x as int, gain as int);
    }
    let p: i64 = (x as i64) * (gain as i64);
    let q: i64 = if p >= 0 {
        p / (UNIT as i64)
    } else {
        -((-p) / (UNIT as i64))
    };
    if q > SAMPLE_MAX as i64 {
        SAMPLE_MAX
    } else if q < -(SAMPLE_MAX as i64) {
        -SAMPLE_MAX
    } else {
        q as i32
    }
}

/// One stereo sample pair.
#[derive(Debug, Clone, Copy, PartialEq, Eq, Structural)]
pub struct Frame {
    pub left: i32,
    pub right: i32,
}

impl Frame {
    /// Both channels lie within the range of a sample.
    pub open spec fn wf(&self) -> bool {
        &&& -SAMPLE_MAX <= self.left
        &&& -SAMPLE_MAX <= self.right
    }

    /// A frame with the given channels, each limited to the range of a sample.
    pub fn new(left: i32, right: i32) -> (r: Frame)
        ensures
            r.left == clamp_sample(left as int),
            r.right == clamp_sample(right as int),
            r.wf(),
    {
        let l = if left < -SAMPLE_MAX { -SAMPLE_MAX } else { left };
        let rt = if right < -SAMPLE_MAX { -SAMPLE_MAX } else { right };
        Frame { left: l, right: rt }
    }

    /// A frame with the same value on both channels.
    pub fn from_mono(value: i32) -> (r: Frame)
        ensures
            r.left == clamp_sample(value as int),
            r.right == clamp_sample(value as int),
            r.wf(),
    {
        Frame::new(value, value)
    }

    /// Silence.
    pub open spec fn spec_silent() -> Frame {
        Frame { left: 0, right: 0 }
    }

    /// Silence.
    pub fn silent() -> (r: Frame)
        ensures
            r.left == 0 && r.right == 0,
            r.wf(),
    {
        Frame { left: 0, right: 0 }
    }

    /// The channel-wise sum, limited to the range of a sample.
    pub fn add(self, other: Frame) -> (r: Frame)
        ensures
            r.left == clamp_sample(self.left + other.left),
            r.right == clamp_sample(self.right + other.right),
            r.wf(),
    {
        let l: i64 = self.left as i64 + other.left as i64;
        let rt: i64 = self.right as i64 + other.right as i64;
        let cl = if l > SAMPLE_MAX as i64 {
            SAMPLE_MAX
        } else if l < -(SAMPLE_MAX as i64) {
            -SAMPLE_MAX
        } else {
            l as i32
        };
        let cr = if rt > SAMPLE_MAX as i64 {
            SAMPLE_MAX
        } else if rt < -(SAMPLE_MAX as i64) {
            -SAMPLE_MAX
        } else {
            rt as i32
        };
        Frame { left: cl, right: cr }
    }

    /// Both channels multiplied by the fixed-point `gain`.
    pub fn scaled(self, gain: i32) -> (r: Frame)
        ensures
            r.left == clamp_sample(scale(self.left as int, gain as int)),
            r.right == clamp_sample(scale(self.right as int, gain as int)),
            r.wf(),
    {
        Frame { left: scale_sample(self.left, gain), right: scale_sample(self.right, gain) }
    }

    /// The frame placed in the stereo field by `panning`: 0 keeps only the
    /// left channel, `UNIT` only the right one, and `UNIT / 2` leaves the
    /// frame as it is.
    pub fn panned(self, panning: i32) -> (r: Frame)
        requires
            0 <= panning <= UNIT,
        ensures
            r.left == clamp_sample(scale(self.left as int, left_gain(panning as int))),
            r.right == clamp_sample(scale(self.right as int, right_gain(panning as int))),
            r.wf(),
    {
        let lg: i32 = if panning <= UNIT / 2 { UNIT } else { 2 * (UNIT - panning) };
        let rg: i32 = if panning >= UNIT / 2 { UNIT } else { 2 * panning };
        Frame { left: scale_sample(self.left, lg), right: scale_sample(self.right, rg) }
    }
}

} // verus!
