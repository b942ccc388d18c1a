//! Values that are either literal or follow a parameter.
use vstd::prelude::*;
use crate::frame::trunc_div;
use crate::id::ParameterId;
use crate::parameter::Parameters;

verus! {

/// A linear map from an input range onto an output range, optionally
/// clamped at the output's first or second end.
#[derive(Debug, Clone, Copy, PartialEq, Eq, Structural)]
pub struct Mapping {
    pub input_start: i32,
    pub input_end: i32,
    pub output_start: i32,
    pub output_end: i32,
    pub clamp_bottom: bool,
    pub clamp_top: bool,
}

/// `x` limited to the range of an `i32`.
pub open spec fn clamp_i32(x: int) -> int {
    if x > i32::MAX { i32::MAX as int } else if x < i32::MIN { i32::MIN as int } else { x }
}

/// What `m` maps `x` to. An empty input range maps everything to the
/// output's start.
pub open spec fn map_value(m: Mapping, x: int) -> int {
    let raw = if m.input_end == m.input_start {
        m.output_start as int
    } else {
        let num = (m.output_end - m.output_start) * (x - m.input_start);
        let den = m.input_end - m.input_start;
        if den > 0 {
            m.output_start + trunc_div(num, den)
        } else {
            m.output_start + trunc_div(-num, -den)
        }
    };
    let low = if m.clamp_bottom && raw < m.output_start { m.output_start as int } else { raw };
    let high = if m.clamp_top && low > m.output_end { m.output_end as int } else { low };
    clamp_i32(high)
}

impl Mapping {
    /// The identity: the input range and the output range are both 0 to 1.
    pub fn identity() -> (r: Mapping)
        ensures
            r.input_start == 0 && r.input_end == crate::frame::UNIT,
            r.output_start == 0 && r.output_end == crate::frame::UNIT,
            !r.clamp_bottom && !r.clamp_top,
    {
        Mapping {
            input_start: 0,
            input_end: crate::frame::UNIT,
            output_start: 0,
            output_end: crate::frame::UNIT,
            clamp_bottom: false,
            clamp_top: false,
        }
    }

    /// What this mapping maps `x` to.
    pub fn map(&self, x: i32) -> (r: i32)
        ensures
            r == map_value(*self, x as int),
    {
        let raw: i128 = if self.input_end == self.input_start {
            self.output_start as i128
        } else {
            proof {
                assert(-0x1_0000_0000 <= self.output_end - self.output_start <= 0x1_0000_0000);
                assert(-0x1_0000_0000 <= x - self.input_start <= 0x1_0000_0000);
                assert(-0x1_0000_0000_0000_0000 <= (self.output_end - self.output_start) * (x
                    - self.input_start) <= 0x1_0000_0000_0000_0000) by (nonlinear_arith)
                    requires
                        -0x1_0000_0000 <= self.output_end - self.output_start <= 0x1_0000_0000,
                        -0x1_0000_0000 <= x - self.input_start <= 0x1_0000_0000,
                ;
            }
            let num0: i128 = (self.output_end as i128 - self.output_start as i128) * (x as i128
                - self.input_start as i128);
            let den0: i128 = self.input_end as i128 - self.input_start as i128;
            let (num, den) = if den0 > 0 { (num0, den0) } else { (-num0, -den0) };
            proof {
                let n = num as int;
                let d = den as int;
                assert(n >= 0 ==> 0 <= n / d <= n) by (nonlinear_arith)
                    requires d >= 1;
                assert(n < 0 ==> 0 <= (-n) / d <= -n) by (nonlinear_arith)
                    requires d >= 1;
            }
            let q: i128 = if num >= 0 { num / den } else { -((-num) / den) };
            self.output_start as i128 + q
        };
        let low = if self.clamp_bottom && raw < self.output_start as i128 {
            self.output_start as i128
        } else {
            raw
        };
        let high = if self.clamp_top && low > self.output_end as i128 {
            self.output_end as i128
        } else {
            low
        };
        if high > i32::MAX as i128 {
            i32::MAX
        } else if high < i32::MIN as i128 {
            i32::MIN
        } else {
            high as i32
        }
    }
}

/// Relies on rand's `Rng::gen_range` on the thread-local generator: a value
/// drawn from the half-open range `low..high`, which must not be empty.
#[verifier::external_body]
fn random_in_range(low: i32, high: i32) -> (r: i32)
    requires
        low < high,
    ensures
        low <= r < high,
{
    rand::Rng::gen_range(&mut rand::thread_rng(), low..high)
}

/// A value that something can be set to.
#[derive(Debug, Clone, Copy)]
pub enum Value {
    /// A fixed value.
    Fixed(i32),
    /// The current value of a parameter, passed through a mapping.
    Parameter(ParameterId, Mapping),
    /// A value drawn once from the half-open range between the two bounds.
    Random(i32, i32),
}

/// Whether `x` is a possible draw of `Random(low, high)`: within the range,
/// or `low` itself when the range is empty.
pub open spec fn is_draw(low: int, high: int, x: int) -> bool {
    if low < high { low <= x < high } else { x == low }
}

/// A draw from `low..high`; `low` itself when the range is empty.
fn pick_random(low: i32, high: i32) -> (r: i32)
    ensures
        is_draw(low as int, high as int, r as int),
{
    if low < high {
        random_in_range(low, high)
    } else {
        low
    }
}

/// A [`Value`] together with the last raw value it produced and optional
/// bounds that the reported value is kept within.
#[derive(Debug, Clone, Copy)]
pub struct CachedValue {
    value: Value,
    last_value: i32,
    min: Option<i32>,
    max: Option<i32>,
}

/// `x` raised to `min` and then lowered to `max`, where given.
pub open spec fn bounded(x: int, min: Option<i32>, max: Option<i32>) -> int {
    let a = match min {
        Some(lo) => if x < lo { lo as int } else { x },
        None => x,
    };
    match max {
        Some(hi) => if a > hi { hi as int } else { a },
        None => a,
    }
}

impl CachedValue {
    /// The value setting.
    pub closed spec fn spec_setting(&self) -> Value {
        self.value
    }

    /// The last raw value.
    pub closed spec fn spec_last(&self) -> i32 {
        self.last_value
    }

    /// The lower bound, if any.
    pub closed spec fn spec_min(&self) -> Option<i32> {
        self.min
    }

    /// The upper bound, if any.
    pub closed spec fn spec_max(&self) -> Option<i32> {
        self.max
    }

    /// The same cached value after an update against `parameters`: the last
    /// raw value follows the parameter it is set to, if that exists.
    pub closed spec fn spec_refreshed(self, parameters: &Parameters) -> CachedValue {
        CachedValue { last_value: refreshed(self.value, self.last_value, parameters), ..self }
    }

    /// The value reported now: the last raw value within the bounds.
    pub open spec fn spec_value(&self) -> int {
        bounded(self.spec_last() as int, self.spec_min(), self.spec_max())
    }

    /// A cached value following `value`, starting from `default_value` when
    /// `value` follows a parameter.
    pub fn new(value: Value, default_value: i32) -> (r: CachedValue)
        ensures
            r.spec_setting() == value,
            r.spec_min() is None && r.spec_max() is None,
            match value {
                Value::Fixed(v) => r.spec_last() == v,
                Value::Parameter(_, _) => r.spec_last() == default_value,
                Value::Random(low, high) => is_draw(low as int, high as int, r.spec_last() as int),
            },
    {
        let last_value = match value {
            Value::Fixed(v) => v,
            Value::Parameter(_, _) => default_value,
            Value::Random(low, high) => pick_random(low, high),
        };
        CachedValue { value, last_value, min: None, max: None }
    }

    /// The same cached value with a lower bound.
    pub fn with_min(self, min: i32) -> (r: CachedValue)
        ensures
            r.spec_setting() == self.spec_setting(),
            r.spec_last() == self.spec_last(),
            r.spec_min() == Some(min),
            r.spec_max() == self.spec_max(),
    {
        CachedValue { min: Some(min), ..self }
    }

    /// The same cached value with an upper bound.
    pub fn with_max(self, max: i32) -> (r: CachedValue)
        ensures
            r.spec_setting() == self.spec_setting(),
            r.spec_last() == self.spec_last(),
            r.spec_min() == self.spec_min(),
            r.spec_max() == Some(max),
    {
        CachedValue { max: Some(max), ..self }
    }

    /// The same cached value kept within `range.start` and `range.end`.
    pub fn with_valid_range(self, range: std::ops::Range<i32>) -> (r: CachedValue)
        ensures
            r.spec_setting() == self.spec_setting(),
            r.spec_last() == self.spec_last(),
            r.spec_min() == Some(range.start),
            r.spec_max() == Some(range.end),
    {
        CachedValue { min: Some(range.start), max: Some(range.end), ..self }
    }

    /// Follows `value` from now on. A fixed value takes effect at once and a
    /// random one is drawn at once; a parameter takes effect at the next
    /// update, and the last raw value stays until then.
    pub fn set(&mut self, value: Value)
        ensures
            final(self).spec_setting() == value,
            final(self).spec_min() == old(self).spec_min(),
            final(self).spec_max() == old(self).spec_max(),
            match value {
                Value::Fixed(v) => final(self).spec_last() == v,
                Value::Parameter(_, _) => final(self).spec_last() == old(self).spec_last(),
                Value::Random(low, high) => is_draw(low as int, high as int, final(self).spec_last() as int),
            },
    {
        self.value = value;
        match value {
            Value::Fixed(v) => {
                self.last_value = v;
            },
            Value::Random(low, high) => {
                self.last_value = pick_random(low, high);
            },
            Value::Parameter(_, _) => {},
        }
    }

    /// Refreshes the last raw value from the parameter this value follows,
    /// if it follows one that exists; otherwise keeps the last raw value.
    pub fn update(&mut self, parameters: &Parameters)
        ensures
            final(self).spec_setting() == old(self).spec_setting(),
            final(self).spec_min() == old(self).spec_min(),
            final(self).spec_max() == old(self).spec_max(),
            final(self).spec_last() == refreshed(old(self).spec_setting(), old(self).spec_last(), parameters),
            *final(self) == old(self).spec_refreshed(parameters),
    {
        match self.value {
            Value::Parameter(id, mapping) => {
                match parameters.value_of(id) {
                    Some(v) => {
                        self.last_value = mapping.map(v);
                    },
                    None => {},
                }
            },
            _ => {},
        }
    }

    /// The last raw value, kept within the bounds.
    pub fn value(&self) -> (r: i32)
        ensures
            r == self.spec_value(),
    {
        let mut v = self.last_value;
        match self.min {
            Some(lo) => {
                if v < lo {
                    v = lo;
                }
            },
            None => {},
        }
        match self.max {
            Some(hi) => {
                if v > hi {
                    v = hi;
                }
            },
            None => {},
        }
        v
    }
}

/// The raw value that a value set to `setting`, last at `last`, holds after
/// an update against `parameters`.
pub open spec fn refreshed(setting: Value, last: i32, parameters: &Parameters) -> i32 {
    match setting {
        Value::Parameter(id, mapping) => match parameters.spec_get(id) {
            Some(m) => map_value(mapping, (m.0 as i32) as int) as i32,
            None => last,
        },
        _ => last,
    }
}

} // verus!
