//! Tweenable scalars that other values can follow.
use vstd::prelude::*;
use crate::frame::{trunc_div, UNIT};
use crate::id::{lemma_u64_keys, ParameterId};
use crate::vec_map::{find_key, keys_unique, lemma_find_key, lemma_without_key_sub, without_key, VecMap};

verus! {

/// A linear animation lasting `duration` ticks.
#[derive(Debug, Clone, Copy, PartialEq, Eq, Structural)]
pub struct Tween {
    pub duration: u32,
}

/// The value of a linear tween from `start` to `end` over `duration` ticks,
/// `time` ticks after it began; `end` once the duration has passed.
pub open spec fn lerp(start: int, end: int, time: int, duration: int) -> int {
    if time >= duration {
        end
    } else {
        start + trunc_div((end - start) * time, duration)
    }
}

proof fn lemma_lerp_between(start: int, end: int, time: int, duration: int)
    requires
        0 <= time,
    ensures
        start <= end ==> start <= lerp(start, end, time, duration) <= end,
        end < start ==> end <= lerp(start, end, time, duration) <= start,
{
    if time < duration {
        let d = end - start;
        if d >= 0 {
            assert(0 <= d * time <= d * duration) by (nonlinear_arith)
                requires
                    d >= 0,
                    0 <= time < duration,
            ;
            assert((d * time) / duration <= d) by (nonlinear_arith)
                requires
                    0 <= d * time <= d * duration,
                    duration > 0,
            ;
            assert(0 <= (d * time) / duration) by (nonlinear_arith)
                requires
                    0 <= d * time,
                    duration > 0,
            ;
        } else {
            let m = -d;
            assert(0 <= m * time <= m * duration) by (nonlinear_arith)
                requires
                    m > 0,
                    0 <= time < duration,
            ;
            assert(d * time == -(m * time)) by (nonlinear_arith)
                requires
                    m == -d,
            ;
            assert((m * time) / duration <= m) by (nonlinear_arith)
                requires
                    0 <= m * time <= m * duration,
                    duration > 0,
            ;
            assert(0 <= (m * time) / duration) by (nonlinear_arith)
                requires
                    0 <= m * time,
                    duration > 0,
            ;
        }
    }
}

/// The value of a tween from `start` to `end` over `tween`, after `time` ticks.
pub fn interpolate(tween: Tween, start: i32, end: i32, time: u64) -> (r: i32)
    ensures
        r == lerp(start as int, end as int, time as int, tween.duration as int),
{
    if time >= tween.duration as u64 {
        return end;
    }
    proof {
        lemma_lerp_between(start as int, end as int, time as int, tween.duration as int);
        assert(-0x1_0000_0000 <= (end - start) <= 0x1_0000_0000);
        assert(-0x1_0000_0000_0000_0000 <= (end - start) * time <= 0x1_0000_0000_0000_0000) by (nonlinear_arith)
            requires
                -0x1_0000_0000 <= (end - start) <= 0x1_0000_0000,
                0 <= time < 0x1_0000_0000,
        ;
    }
    let p: i128 = (end as i128 - start as i128) * (time as i128);
    let d: i128 = tween.duration as i128;
    let q: i128 = if p >= 0 {
        p / d
    } else {
        -((-p) / d)
    };
    (start as i128 + q) as i32
}

/// A running tween: its curve, its two ends, and the ticks it has run.
#[derive(Debug, Clone, Copy)]
pub struct TweenState {
    pub tween: Tween,
    pub start: i32,
    pub end: i32,
    pub time: u32,
}

/// A scalar that may be moving toward a target.
#[derive(Debug, Clone, Copy)]
pub struct Parameter {
    value: i32,
    tween_state: Option<TweenState>,
}

/// The state of a parameter: its value and, while a tween runs, the tween's
/// start, end, elapsed ticks and duration.
pub type ParameterModel = (int, Option<(int, int, int, int)>);

/// The state of a parameter after `dt` ticks.
///
/// Without a tween nothing changes. With one, the elapsed time grows by `dt`
/// and the value is the tween's value at that time; once the duration is
/// reached the value is exactly the end and the tween is gone, and the tick
/// reports that it finished.
pub open spec fn parameter_step(p: ParameterModel, dt: int) -> (ParameterModel, bool) {
    match p.1 {
        None => (p, false),
        Some((start, end, time, duration)) => {
            if time + dt >= duration {
                ((end, None), true)
            } else {
                ((lerp(start, end, time + dt, duration), Some((start, end, time + dt, duration))), false)
            }
        },
    }
}

/// The state of a parameter after it is set to `target`, at once or along `tween`.
pub open spec fn set_model(p: ParameterModel, target: i32, tween: Option<Tween>) -> ParameterModel {
    match tween {
        Some(tw) => (p.0, Some((p.0, target as int, 0int, tw.duration as int))),
        None => (target as int, p.1),
    }
}

/// A running tween in `m` has not yet reached its duration, unless it has not
/// run at all, and its ends and times fit their types.
pub open spec fn model_wf(m: ParameterModel) -> bool {
    m.1 matches Some((s, e, t, d)) ==> (t < d || t == 0) && 0 <= t && 0 <= d <= u32::MAX && i32::MIN <= s
        <= i32::MAX && i32::MIN <= e <= i32::MAX
}

impl View for Parameter {
    type V = ParameterModel;

    closed spec fn view(&self) -> ParameterModel {
        (
            self.value as int,
            match self.tween_state {
                Some(ts) => Some(
                    (ts.start as int, ts.end as int, ts.time as int, ts.tween.duration as int),
                ),
                None => None,
            },
        )
    }
}

impl Parameter {
    /// A running tween has not yet reached its duration, unless it has not
    /// run at all.
    pub open spec fn wf(&self) -> bool {
        model_wf(self@)
    }

    /// A parameter resting at `value`.
    pub closed spec fn spec_new(value: i32) -> Parameter {
        Parameter { value, tween_state: None }
    }

    /// A parameter resting at `value`.
    pub fn new(value: i32) -> (r: Parameter)
        ensures
            r == Parameter::spec_new(value),
            r@ == (value as int, None::<(int, int, int, int)>),
            r.wf(),
    {
        Parameter { value, tween_state: None }
    }

    /// The current value.
    pub fn value(&self) -> (r: i32)
        ensures
            r == self@.0,
    {
        self.value
    }

    /// Moves the parameter to `target`: at once without a tween, or along
    /// `tween` starting from the current value. Setting without a tween leaves
    /// a running tween in place.
    pub fn set(&mut self, target: i32, tween: Option<Tween>)
        requires
            old(self).wf(),
        ensures
            final(self).wf(),
            final(self)@ == set_model(old(self)@, target, tween),
    {
        match tween {
            Some(tw) => {
                self.tween_state = Some(TweenState { tween: tw, start: self.value, end: target, time: 0 });
            },
            None => {
                self.value = target;
            },
        }
    }

    /// Advances a running tween by `dt` ticks; returns whether it finished
    /// during this tick.
    pub fn update(&mut self, dt: u32) -> (r: bool)
        requires
            old(self).wf(),
        ensures
            final(self).wf(),
            (final(self)@, r) == parameter_step(old(self)@, dt as int),
    {
        match self.tween_state {
            Some(ts) => {
                let time: u64 = ts.time as u64 + dt as u64;
                if time >= ts.tween.duration as u64 {
                    self.value = ts.end;
                    self.tween_state = None;
                    true
                } else {
                    self.value = interpolate(ts.tween, ts.start, ts.end, time);
                    self.tween_state = Some(TweenState { time: time as u32, ..ts });
                    false
                }
            },
            None => false,
        }
    }
}

/// A running tween's value after any number of ticks is the tween's value at
/// the elapsed time, and exactly its end from the duration on.
pub proof fn tween_follows_curve(p: ParameterModel, dt: int)
    requires
        dt >= 0,
        p.1 is Some,
    ensures
        ({
            let (start, end, time, duration) = p.1->0;
            let q = parameter_step(p, dt).0;
            &&& q.0 == lerp(start, end, time + dt, duration)
            &&& time + dt >= duration ==> q.0 == end && q.1 is None
        }),
{
}

/// A fade from full scale to silence stands at exactly half scale halfway
/// through its duration, and at silence once the duration has passed.
pub proof fn fade_out_halfway(duration: int, elapsed: int)
    requires
        duration > 0,
        elapsed >= 0,
    ensures
        2 * elapsed == duration ==> lerp(UNIT as int, 0, elapsed, duration) == UNIT / 2,
        elapsed >= duration ==> lerp(UNIT as int, 0, elapsed, duration) == 0,
{
    if 2 * elapsed == duration {
        let u = UNIT as int;
        assert((-u) * elapsed == -(u * elapsed)) by (nonlinear_arith);
        assert((u * elapsed) / duration == u / 2) by (nonlinear_arith)
            requires
                u == 65536,
                2 * elapsed == duration,
                duration > 0,
        ;
    }
}

/// A parameter resting at `v` that is set to `target` without a tween holds
/// `target` after the next tick.
pub proof fn set_then_tick(v: i32, target: i32, dt: int)
    ensures
        parameter_step(set_model((v as int, None), target, None), dt).0.0 == target,
{
}

/// All parameters that currently exist, in the order they were added.
pub struct Parameters {
    parameters: VecMap<u64, Parameter>,
}

impl View for Parameters {
    type V = Seq<(u64, Parameter)>;

    closed spec fn view(&self) -> Seq<(u64, Parameter)> {
        self.parameters@
    }
}

impl Parameters {
    /// The most parameters that can exist at once.
    pub closed spec fn spec_capacity(&self) -> nat {
        self.parameters.spec_capacity()
    }

    /// The registry fits its capacity, identifiers are unique, and every
    /// parameter is well formed.
    pub open spec fn wf(&self) -> bool {
        &&& self@.len() <= self.spec_capacity()
        &&& keys_unique(self@)
        &&& forall|i: int| 0 <= i < self@.len() ==> #[trigger] self@[i].1.wf()
    }

    /// The model of the parameter `id`, if it exists.
    pub open spec fn spec_get(&self, id: ParameterId) -> Option<ParameterModel> {
        let i = find_key(self@, id.index);
        if i >= 0 { Some(self@[i].1@) } else { None }
    }

    /// An empty registry for up to `capacity` parameters.
    pub fn new(capacity: usize) -> (r: Parameters)
        ensures
            r@ == Seq::<(u64, Parameter)>::empty(),
            r.spec_capacity() == capacity,
            r.wf(),
    {
        Parameters { parameters: VecMap::new(capacity) }
    }

    /// The number of parameters.
    pub fn len(&self) -> (r: usize)
        ensures
            r == self@.len(),
    {
        self.parameters.len()
    }

    /// The current value of the parameter `id`, if it exists.
    pub fn value_of(&self, id: ParameterId) -> (r: Option<i32>)
        ensures
            self.spec_get(id) is None ==> r is None,
            self.spec_get(id) matches Some(m) ==> r == Some(m.0 as i32),
    {
        proof {
            lemma_u64_keys();
            lemma_find_key(self@, id.index);
        }
        match self.parameters.get(&id.index) {
            Some(p) => Some(p.value()),
            None => None,
        }
    }

    /// Adds a parameter resting at `value` under `id`, replacing one with the
    /// same identifier; does nothing more when the registry is full.
    pub fn add(&mut self, id: ParameterId, value: i32)
        requires
            old(self).wf(),
        ensures
            final(self).wf(),
            final(self).spec_capacity() == old(self).spec_capacity(),
            ({
                let rest = without_key(old(self)@, id.index);
                &&& rest.len() < old(self).spec_capacity() ==> final(self)@ == rest.push((id.index, Parameter::spec_new(value)))
                &&& rest.len() >= old(self).spec_capacity() ==> final(self)@ == rest
            }),
    {
        proof {
            lemma_u64_keys();
        }
        let ghost old_s = self@;
        let _ = self.parameters.insert(id.index, Parameter::new(value));
        proof {
            lemma_without_key_sub(old_s, id.index);
        }
    }

    /// Moves the parameter `id` to `target` (see [`Parameter::set`]); does
    /// nothing when it does not exist.
    pub fn set(&mut self, id: ParameterId, target: i32, tween: Option<Tween>)
        requires
            old(self).wf(),
        ensures
            final(self).wf(),
            final(self).spec_capacity() == old(self).spec_capacity(),
            final(self)@.len() == old(self)@.len(),
            ({
                let i = find_key(old(self)@, id.index);
                forall|j: int| 0 <= j < old(self)@.len() ==> {
                    &&& (#[trigger] final(self)@[j]).0 == old(self)@[j].0
                    &&& j != i ==> final(self)@[j] == old(self)@[j]
                    &&& j == i ==> final(self)@[j].1@ == set_model(old(self)@[j].1@, target, tween)
                }
            }),
    {
        proof {
            lemma_u64_keys();
            lemma_find_key(self@, id.index);
        }
        let ghost old_s = self@;
        match self.parameters.get_mut(&id.index) {
            Some(p) => {
                p.set(target, tween);
            },
            None => {},
        }
        proof {
            assert forall|a: int, b: int| 0 <= a < self@.len() && 0 <= b < self@.len() && a != b
                implies #[trigger] self@[a].0 != #[trigger] self@[b].0 by {
                assert(self@[a].0 == old_s[a].0 && self@[b].0 == old_s[b].0);
            }
        }
    }

    /// Removes the parameter `id`, if it exists.
    pub fn remove(&mut self, id: ParameterId)
        requires
            old(self).wf(),
        ensures
            final(self).wf(),
            final(self).spec_capacity() == old(self).spec_capacity(),
            final(self)@ == without_key(old(self)@, id.index),
    {
        proof {
            lemma_u64_keys();
        }
        let ghost old_s = self@;
        let _ = self.parameters.remove(&id.index);
        proof {
            lemma_without_key_sub(old_s, id.index);
        }
    }

    /// Advances every parameter by `dt` ticks.
    pub fn update(&mut self, dt: u32)
        requires
            old(self).wf(),
        ensures
            final(self).wf(),
            final(self).spec_capacity() == old(self).spec_capacity(),
            final(self)@.len() == old(self)@.len(),
            forall|j: int| 0 <= j < old(self)@.len() ==> {
                &&& (#[trigger] final(self)@[j]).0 == old(self)@[j].0
                &&& final(self)@[j].1@ == parameter_step(old(self)@[j].1@, dt as int).0
            },
    {
        let n = self.parameters.len();
        let mut i: usize = 0;
        while i < n
            invariant
                self.wf(),
                self.spec_capacity() == old(self).spec_capacity(),
                n == old(self)@.len(),
                self@.len() == n,
                i <= n,
                forall|j: int| 0 <= j < n ==> (#[trigger] self@[j]).0 == old(self)@[j].0,
                forall|j: int| 0 <= j < i ==> (#[trigger] self@[j]).1@ == parameter_step(old(self)@[j].1@, dt as int).0,
                forall|j: int| i <= j < n ==> #[trigger] self@[j] == old(self)@[j],
            decreases n - i,
        {
            let ghost before = self@;
            match self.parameters.get_index_mut(i) {
                Some(p) => {
                    p.update(dt);
                },
                None => {},
            }
            proof {
                assert forall|a: int, b: int| 0 <= a < self@.len() && 0 <= b < self@.len() && a != b
                    implies #[trigger] self@[a].0 != #[trigger] self@[b].0 by {
                    assert(self@[a].0 == before[a].0 && self@[b].0 == before[b].0);
                }
            }
            i = i + 1;
        }
    }
}

} // verus!
