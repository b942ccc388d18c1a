//! Sequences: small programs of timed audio commands, stepped once per tick.
use vstd::prelude::*;
use crate::id::{ParameterId, SoundId};
use crate::metronome::MetronomeId;
use crate::parameter::Tween;
use crate::settings::InstanceSettings;
use crate::id::lemma_u64_keys;
use crate::vec_map::{find_key, keys_unique, lemma_find_key, lemma_without_key_sub, without_key, VecMap};

verus! {

/// A unique identifier for a running sequence.
#[derive(Debug, Clone, Copy, PartialEq, Eq, Hash, Structural)]
pub struct SequenceInstanceId {
    pub index: u64,
}

impl SequenceInstanceId {
    /// The identifier with the given counter value.
    pub fn new(index: u64) -> (r: SequenceInstanceId)
        ensures
            r.index == index,
    {
        SequenceInstanceId { index }
    }
}

/// One step of a sequence.
#[derive(Debug, Clone, Copy)]
pub enum SequenceStep {
    /// Wait this many ticks.
    Wait(u64),
    /// Wait until the sequence's metronome crosses a multiple of this many beats.
    WaitForInterval(i64),
    /// Start an instance of a sound.
    PlaySound(SoundId, InstanceSettings),
    /// Move a parameter to a value, at once or along a tween.
    SetParameter(ParameterId, i32, Option<Tween>),
    /// Report a custom event to the control thread.
    EmitCustomEvent(u64),
    /// Mark the place the sequence returns to after its last step.
    StartLoop,
}

/// What a sequence is waiting for before its next step.
#[derive(Debug, Clone, Copy, PartialEq, Eq, Structural)]
pub enum Waiting {
    /// Nothing.
    Nothing,
    /// This many more ticks.
    Ticks(u64),
    /// A crossing of a multiple of this many beats.
    Interval(i64),
}

/// Whether a sequence runs.
#[derive(Debug, Clone, Copy, PartialEq, Eq, Structural)]
pub enum SequenceState {
    Playing,
    Paused,
    Finished,
}

/// What one step asks of the rest of the engine.
#[derive(Debug, Clone, Copy)]
pub enum SequenceAction {
    /// Nothing.
    Nothing,
    /// Start an instance of a sound.
    PlaySound(SoundId, InstanceSettings),
    /// Move a parameter.
    SetParameter(ParameterId, i32, Option<Tween>),
}

/// The state a sequence moves through: the next step, the loop point, what
/// it waits for, whether it runs, and the custom events waiting to be
/// collected.
pub type SequenceModel = (int, Option<int>, Waiting, SequenceState, Seq<u64>);

/// The model after the waits of one tick of `dt` ticks: a tick wait runs
/// down (and ends once `dt` covers it), an interval wait ends when the
/// metronome crossed the interval during the tick. Only a playing sequence
/// waits.
pub open spec fn waited(m: SequenceModel, dt: int, interval_passed: bool) -> SequenceModel {
    if m.3 != SequenceState::Playing {
        m
    } else {
        match m.2 {
            Waiting::Nothing => m,
            Waiting::Ticks(t) => if t <= dt {
                (m.0, m.1, Waiting::Nothing, m.3, m.4)
            } else {
                (m.0, m.1, Waiting::Ticks((t - dt) as u64), m.3, m.4)
            },
            Waiting::Interval(_) => if interval_passed {
                (m.0, m.1, Waiting::Nothing, m.3, m.4)
            } else {
                m
            },
        }
    }
}

/// Whether a sequence in model `m` takes no step now.
pub open spec fn blocked(m: SequenceModel) -> bool {
    m.3 != SequenceState::Playing || m.2 != Waiting::Nothing
}

/// The model after one step of `steps` from `m` (which is not blocked),
/// holding at most `capacity` events: past the end the sequence loops back
/// or finishes; a wait starts waiting; a loop mark records the next step;
/// an event is queued if there is room; every step moves on by one.
pub open spec fn stepped(m: SequenceModel, steps: Seq<SequenceStep>, capacity: int) -> SequenceModel {
    let (p, l, w, s, ev) = m;
    if p >= steps.len() {
        match l {
            Some(back) => (back, l, w, s, ev),
            None => (p, l, w, SequenceState::Finished, ev),
        }
    } else {
        match steps[p] {
            SequenceStep::Wait(t) => (p + 1, l, Waiting::Ticks(t), s, ev),
            SequenceStep::WaitForInterval(i) => (p + 1, l, Waiting::Interval(i), s, ev),
            SequenceStep::EmitCustomEvent(e) => (p + 1, l, w, s, if ev.len() < capacity { ev.push(e) } else { ev }),
            SequenceStep::StartLoop => (p + 1, Some(p + 1), w, s, ev),
            _ => (p + 1, l, w, s, ev),
        }
    }
}

/// A running sequence.
pub struct SequenceInstance {
    steps: Vec<SequenceStep>,
    position: usize,
    loop_point: Option<usize>,
    waiting: Waiting,
    state: SequenceState,
    metronome: Option<MetronomeId>,
    events: Vec<u64>,
    event_capacity: usize,
}

impl SequenceInstance {
    /// The sequence's steps.
    pub closed spec fn spec_steps(&self) -> Seq<SequenceStep> {
        self.steps@
    }

    /// The metronome that interval waits follow, if any.
    pub closed spec fn spec_metronome(&self) -> Option<MetronomeId> {
        self.metronome
    }

    /// How many custom events can wait to be collected.
    pub closed spec fn spec_event_capacity(&self) -> int {
        self.event_capacity as int
    }

    /// The sequence's state.
    pub closed spec fn spec_model(&self) -> SequenceModel {
        (
            self.position as int,
            match self.loop_point {
                Some(l) => Some(l as int),
                None => None,
            },
            self.waiting,
            self.state,
            self.events@,
        )
    }

    /// The next step and the loop point lie within the steps, and no more
    /// events wait than there is room for.
    pub closed spec fn wf(&self) -> bool {
        &&& self.position <= self.steps@.len()
        &&& self.loop_point matches Some(l) ==> l <= self.steps@.len()
        &&& self.events@.len() <= self.event_capacity
    }

    /// A playing sequence at its first step, following `metronome` for
    /// interval waits, with room for `event_capacity` custom events.
    pub fn new(steps: Vec<SequenceStep>, metronome: Option<MetronomeId>, event_capacity: usize) -> (r: SequenceInstance)
        ensures
            r.wf(),
            r.spec_steps() == steps@,
            r.spec_metronome() == metronome,
            r.spec_event_capacity() == event_capacity,
            r.spec_model() == (0int, None::<int>, Waiting::Nothing, SequenceState::Playing, Seq::<u64>::empty()),
    {
        SequenceInstance {
            steps,
            position: 0,
            loop_point: None,
            waiting: Waiting::Nothing,
            state: SequenceState::Playing,
            metronome,
            events: Vec::with_capacity(event_capacity),
            event_capacity,
        }
    }

    /// The metronome that interval waits follow, if any.
    pub fn metronome(&self) -> (r: Option<MetronomeId>)
        ensures
            r == self.spec_metronome(),
    {
        self.metronome
    }

    /// The interval the sequence waits for, if it waits for one.
    pub fn waiting_interval(&self) -> (r: Option<i64>)
        ensures
            r == match self.spec_model().2 {
                Waiting::Interval(i) => Some(i),
                _ => None,
            },
    {
        match self.waiting {
            Waiting::Interval(i) => Some(i),
            _ => None,
        }
    }

    /// Whether the sequence takes no step now.
    pub fn is_blocked(&self) -> (r: bool)
        ensures
            r == blocked(self.spec_model()),
    {
        self.state != SequenceState::Playing || self.waiting != Waiting::Nothing
    }

    /// Lets the waits of one tick of `dt` ticks pass; `interval_passed` says
    /// whether the metronome crossed the interval waited for.
    pub fn wait(&mut self, dt: u64, interval_passed: bool)
        requires
            old(self).wf(),
        ensures
            final(self).wf(),
            final(self).spec_steps() == old(self).spec_steps(),
            final(self).spec_metronome() == old(self).spec_metronome(),
            final(self).spec_event_capacity() == old(self).spec_event_capacity(),
            final(self).spec_model() == waited(old(self).spec_model(), dt as int, interval_passed),
    {
        if self.state != SequenceState::Playing {
            return;
        }
        match self.waiting {
            Waiting::Nothing => {},
            Waiting::Ticks(t) => {
                if t <= dt {
                    self.waiting = Waiting::Nothing;
                } else {
                    self.waiting = Waiting::Ticks(t - dt);
                }
            },
            Waiting::Interval(_) => {
                if interval_passed {
                    self.waiting = Waiting::Nothing;
                }
            },
        }
    }

    /// Takes one step, unless blocked, and returns what it asks of the
    /// engine.
    pub fn step(&mut self) -> (r: SequenceAction)
        requires
            old(self).wf(),
        ensures
            final(self).wf(),
            final(self).spec_steps() == old(self).spec_steps(),
            final(self).spec_metronome() == old(self).spec_metronome(),
            final(self).spec_event_capacity() == old(self).spec_event_capacity(),
            blocked(old(self).spec_model()) ==> final(self).spec_model() == old(self).spec_model() && r is Nothing,
            !blocked(old(self).spec_model()) ==> final(self).spec_model() == stepped(
                old(self).spec_model(),
                old(self).spec_steps(),
                old(self).spec_event_capacity(),
            ),
            !blocked(old(self).spec_model()) && old(self).spec_model().0 >= old(self).spec_steps().len() ==> r is Nothing,
            !blocked(old(self).spec_model()) && old(self).spec_model().0 < old(self).spec_steps().len()
                ==> match old(self).spec_steps()[old(self).spec_model().0] {
                SequenceStep::PlaySound(s, settings) => r == SequenceAction::PlaySound(s, settings),
                SequenceStep::SetParameter(id, v, tw) => r == SequenceAction::SetParameter(id, v, tw),
                _ => r is Nothing,
            },
    {
        if self.state != SequenceState::Playing || self.waiting != Waiting::Nothing {
            return SequenceAction::Nothing;
        }
        if self.position >= self.steps.len() {
            match self.loop_point {
                Some(back) => {
                    self.position = back;
                },
                None => {
                    self.state = SequenceState::Finished;
                },
            }
            return SequenceAction::Nothing;
        }
        let step = self.steps[self.position];
        self.position = self.position + 1;
        match step {
            SequenceStep::Wait(t) => {
                self.waiting = Waiting::Ticks(t);
                SequenceAction::Nothing
            },
            SequenceStep::WaitForInterval(i) => {
                self.waiting = Waiting::Interval(i);
                SequenceAction::Nothing
            },
            SequenceStep::PlaySound(sound, settings) => SequenceAction::PlaySound(sound, settings),
            SequenceStep::SetParameter(id, value, tween) => SequenceAction::SetParameter(id, value, tween),
            SequenceStep::EmitCustomEvent(e) => {
                if self.events.len() < self.event_capacity {
                    self.events.push(e);
                }
                SequenceAction::Nothing
            },
            SequenceStep::StartLoop => {
                self.loop_point = Some(self.position);
                SequenceAction::Nothing
            },
        }
    }

    /// Pauses a playing sequence.
    pub fn pause(&mut self)
        requires
            old(self).wf(),
        ensures
            final(self).wf(),
            final(self).spec_steps() == old(self).spec_steps(),
            final(self).spec_metronome() == old(self).spec_metronome(),
            final(self).spec_event_capacity() == old(self).spec_event_capacity(),
            ({
                let m = old(self).spec_model();
                final(self).spec_model() == if m.3 == SequenceState::Playing {
                    (m.0, m.1, m.2, SequenceState::Paused, m.4)
                } else {
                    m
                }
            }),
    {
        if self.state == SequenceState::Playing {
            self.state = SequenceState::Paused;
        }
    }

    /// Resumes a paused sequence.
    pub fn resume(&mut self)
        requires
            old(self).wf(),
        ensures
            final(self).wf(),
            final(self).spec_steps() == old(self).spec_steps(),
            final(self).spec_metronome() == old(self).spec_metronome(),
            final(self).spec_event_capacity() == old(self).spec_event_capacity(),
            ({
                let m = old(self).spec_model();
                final(self).spec_model() == if m.3 == SequenceState::Paused {
                    (m.0, m.1, m.2, SequenceState::Playing, m.4)
                } else {
                    m
                }
            }),
    {
        if self.state == SequenceState::Paused {
            self.state = SequenceState::Playing;
        }
    }

    /// Stops the sequence for good.
    pub fn stop(&mut self)
        requires
            old(self).wf(),
        ensures
            final(self).wf(),
            final(self).spec_steps() == old(self).spec_steps(),
            final(self).spec_metronome() == old(self).spec_metronome(),
            final(self).spec_event_capacity() == old(self).spec_event_capacity(),
            ({
                let m = old(self).spec_model();
                final(self).spec_model() == (m.0, m.1, m.2, SequenceState::Finished, m.4)
            }),
    {
        self.state = SequenceState::Finished;
    }

    /// Takes the oldest waiting custom event, if any.
    pub fn pop_event(&mut self) -> (r: Option<u64>)
        requires
            old(self).wf(),
        ensures
            final(self).wf(),
            final(self).spec_steps() == old(self).spec_steps(),
            final(self).spec_metronome() == old(self).spec_metronome(),
            final(self).spec_event_capacity() == old(self).spec_event_capacity(),
            ({
                let m = old(self).spec_model();
                &&& m.4.len() == 0 ==> r is None && final(self).spec_model() == m
                &&& m.4.len() > 0 ==> r == Some(m.4[0]) && final(self).spec_model() == (
                    m.0,
                    m.1,
                    m.2,
                    m.3,
                    m.4.drop_first(),
                )
            }),
    {
        if self.events.len() == 0 {
            None
        } else {
            let e = self.events.remove(0);
            proof {
                assert(self.events@ =~= old(self).events@.drop_first());
            }
            Some(e)
        }
    }
}

/// The model of a sequence after `command`: a pause stops a playing
/// sequence until it is resumed, a resume restarts a paused one, and a stop
/// finishes it.
pub open spec fn sequence_commanded(m: SequenceModel, command: SequenceCommand) -> SequenceModel {
    match command {
        SequenceCommand::Pause => if m.3 == SequenceState::Playing {
            (m.0, m.1, m.2, SequenceState::Paused, m.4)
        } else {
            m
        },
        SequenceCommand::Resume => if m.3 == SequenceState::Paused {
            (m.0, m.1, m.2, SequenceState::Playing, m.4)
        } else {
            m
        },
        SequenceCommand::Stop => (m.0, m.1, m.2, SequenceState::Finished, m.4),
    }
}

/// The model after taking steps from `m` until it blocks, at most `n` steps.
pub open spec fn run_steps(m: SequenceModel, steps: Seq<SequenceStep>, capacity: int, n: nat) -> SequenceModel
    decreases n,
{
    if n == 0 || blocked(m) {
        m
    } else {
        run_steps(stepped(m, steps, capacity), steps, capacity, (n - 1) as nat)
    }
}

/// Whether taking steps from `m` until it blocks, at most `n` of them, meets
/// a step that plays a sound or sets a parameter.
pub open spec fn steps_act(m: SequenceModel, steps: Seq<SequenceStep>, capacity: int, n: nat) -> bool
    decreases n,
{
    if n == 0 || blocked(m) {
        false
    } else {
        ||| (m.0 < steps.len() && (steps[m.0] is PlaySound || steps[m.0] is SetParameter))
        ||| steps_act(stepped(m, steps, capacity), steps, capacity, (n - 1) as nat)
    }
}

/// Whether the sequence `old`, ticking with its interval wait ending or not
/// as `interval_passed` says, takes a step that plays a sound or sets a
/// parameter.
pub open spec fn tick_acts(old: SequenceInstance, dt: int, interval_passed: bool) -> bool {
    steps_act(
        waited(old.spec_model(), dt, interval_passed),
        old.spec_steps(),
        old.spec_event_capacity(),
        step_budget(old.spec_steps().len() as int),
    )
}

/// The most steps a sequence of `len` steps takes in one tick: one more than
/// it has, so that a loop without waits cannot hold up the tick.
pub open spec fn step_budget(len: int) -> nat {
    if len < usize::MAX { (len + 1) as nat } else { len as nat }
}

/// Whether `new` is the sequence `old` after one tick of `dt` ticks, in which
/// its interval wait ended or not as `interval_passed` says: its waits run
/// down, then it takes steps until it blocks.
pub open spec fn sequence_ticked(old: SequenceInstance, new: SequenceInstance, dt: int, interval_passed: bool) -> bool {
    &&& new.spec_steps() == old.spec_steps()
    &&& new.spec_metronome() == old.spec_metronome()
    &&& new.spec_event_capacity() == old.spec_event_capacity()
    &&& new.spec_model() == run_steps(
        waited(old.spec_model(), dt, interval_passed),
        old.spec_steps(),
        old.spec_event_capacity(),
        step_budget(old.spec_steps().len() as int),
    )
}

/// Something the control thread asks of a running sequence.
#[derive(Debug, Clone, Copy, PartialEq, Eq, Structural)]
pub enum SequenceCommand {
    Pause,
    Resume,
    Stop,
}

impl SequenceInstance {
    /// Whether the sequence is well formed.
    pub fn is_wf(&self) -> (r: bool)
        ensures
            r == self.wf(),
    {
        self.position <= self.steps.len() && match self.loop_point {
            Some(l) => l <= self.steps.len(),
            None => true,
        } && self.events.len() <= self.event_capacity
    }

    /// The number of steps.
    pub fn num_steps(&self) -> (r: usize)
        ensures
            r == self.spec_steps().len(),
    {
        self.steps.len()
    }

    /// Carries out `command`.
    pub fn run_command(&mut self, command: SequenceCommand)
        requires
            old(self).wf(),
        ensures
            final(self).wf(),
            final(self).spec_steps() == old(self).spec_steps(),
            final(self).spec_metronome() == old(self).spec_metronome(),
            final(self).spec_event_capacity() == old(self).spec_event_capacity(),
            final(self).spec_model() == sequence_commanded(old(self).spec_model(), command),
    {
        match command {
            SequenceCommand::Pause => self.pause(),
            SequenceCommand::Resume => self.resume(),
            SequenceCommand::Stop => self.stop(),
        }
    }
}

/// The running sequences, in the order they started.
pub struct Sequences {
    sequences: VecMap<u64, SequenceInstance>,
}

impl View for Sequences {
    type V = Seq<(u64, SequenceInstance)>;

    closed spec fn view(&self) -> Seq<(u64, SequenceInstance)> {
        self.sequences@
    }
}

impl Sequences {
    /// The most sequences that can run at once.
    pub closed spec fn spec_capacity(&self) -> nat {
        self.sequences.spec_capacity()
    }

    /// The registry fits its capacity, identifiers are unique, and every
    /// sequence is well formed.
    pub open spec fn wf(&self) -> bool {
        &&& self@.len() <= self.spec_capacity()
        &&& keys_unique(self@)
        &&& forall|i: int| 0 <= i < self@.len() ==> #[trigger] self@[i].1.wf()
    }

    /// No sequences, with room for `capacity`.
    pub fn new(capacity: usize) -> (r: Sequences)
        ensures
            r@ == Seq::<(u64, SequenceInstance)>::empty(),
            r.spec_capacity() == capacity,
            r.wf(),
    {
        Sequences { sequences: VecMap::new(capacity) }
    }

    /// The number of running sequences.
    pub fn len(&self) -> (r: usize)
        ensures
            r == self@.len(),
    {
        self.sequences.len()
    }

    /// Starts `sequence` under `id`. A sequence that leaves the registry
    /// (replaced, or refused because the registry is full) is handed back.
    pub fn add(&mut self, id: SequenceInstanceId, sequence: SequenceInstance) -> (r: Option<SequenceInstance>)
        requires
            old(self).wf(),
            sequence.wf(),
        ensures
            final(self).wf(),
            final(self).spec_capacity() == old(self).spec_capacity(),
            ({
                let rest = without_key(old(self)@, id.index);
                &&& rest.len() < old(self).spec_capacity() ==> final(self)@ == rest.push((id.index, sequence))
                &&& rest.len() >= old(self).spec_capacity() ==> final(self)@ == rest && r == Some(sequence)
            }),
    {
        proof {
            lemma_u64_keys();
        }
        let ghost s0 = self@;
        let r = match self.sequences.insert(id.index, sequence) {
            Ok(previous) => previous,
            Err(sequence) => Some(sequence),
        };
        proof {
            lemma_without_key_sub(s0, id.index);
            let rest = without_key(s0, id.index);
            assert forall|i: int| 0 <= i < self@.len() implies #[trigger] self@[i].1.wf() by {
                if i < rest.len() {
                    assert(self@[i] == rest[i]);
                    let k = choose|k: int| 0 <= k < s0.len() && #[trigger] rest[i] == s0[k];
                }
            }
        }
        r
    }

    /// Removes the sequence `id` and hands it back, if it runs.
    pub fn remove(&mut self, id: SequenceInstanceId) -> (r: Option<SequenceInstance>)
        requires
            old(self).wf(),
        ensures
            final(self).wf(),
            final(self).spec_capacity() == old(self).spec_capacity(),
            final(self)@ == without_key(old(self)@, id.index),
    {
        proof {
            lemma_u64_keys();
        }
        let ghost s0 = self@;
        let r = self.sequences.remove(&id.index);
        proof {
            lemma_without_key_sub(s0, id.index);
            let rest = without_key(s0, id.index);
            assert forall|i: int| 0 <= i < self@.len() implies #[trigger] self@[i].1.wf() by {
                let k = choose|k: int| 0 <= k < s0.len() && #[trigger] rest[i] == s0[k];
            }
        }
        r
    }

    /// Carries out `command` on the sequence `id`, if it runs.
    pub fn run_command(&mut self, id: SequenceInstanceId, command: SequenceCommand)
        requires
            old(self).wf(),
        ensures
            final(self).wf(),
            final(self).spec_capacity() == old(self).spec_capacity(),
            final(self)@.len() == old(self)@.len(),
            forall|j: int| 0 <= j < old(self)@.len() ==> {
                &&& (#[trigger] final(self)@[j]).0 == old(self)@[j].0
                &&& j != find_key(old(self)@, id.index) ==> final(self)@[j] == old(self)@[j]
                &&& j == find_key(old(self)@, id.index) ==> {
                    &&& final(self)@[j].1.spec_steps() == old(self)@[j].1.spec_steps()
                    &&& final(self)@[j].1.spec_metronome() == old(self)@[j].1.spec_metronome()
                    &&& final(self)@[j].1.spec_event_capacity() == old(self)@[j].1.spec_event_capacity()
                    &&& final(self)@[j].1.spec_model() == sequence_commanded(old(self)@[j].1.spec_model(), command)
                }
            },
    {
        proof {
            lemma_u64_keys();
            lemma_find_key(self@, id.index);
        }
        let ghost s0 = self@;
        match self.sequences.get_mut(&id.index) {
            Some(sequence) => sequence.run_command(command),
            None => {},
        }
        proof {
            assert forall|a: int, b: int| 0 <= a < self@.len() && 0 <= b < self@.len() && a != b
                implies #[trigger] self@[a].0 != #[trigger] self@[b].0 by {
                assert(self@[a].0 == s0[a].0 && self@[b].0 == s0[b].0);
            }
        }
    }

    /// The metronome and the interval the sequence at position `i` waits
    /// for, and its number of steps.
    pub fn wait_info(&self, i: usize) -> (r: (Option<MetronomeId>, Option<i64>, usize))
        requires
            i < self@.len(),
        ensures
            r.0 == self@[i as int].1.spec_metronome(),
            r.2 == self@[i as int].1.spec_steps().len(),
            r.1 == match self@[i as int].1.spec_model().2 {
                Waiting::Interval(iv) => Some(iv),
                _ => None,
            },
    {
        match self.sequences.get_index(i) {
            Some(sequence) => (sequence.metronome(), sequence.waiting_interval(), sequence.num_steps()),
            None => (None, None, 0),
        }
    }

    /// Lets the waits of one tick pass for the sequence at position `i`.
    pub fn wait_at(&mut self, i: usize, dt: u64, interval_passed: bool)
        requires
            old(self).wf(),
            i < old(self)@.len(),
        ensures
            final(self).wf(),
            final(self).spec_capacity() == old(self).spec_capacity(),
            final(self)@.len() == old(self)@.len(),
            final(self)@[i as int].1.spec_model() == waited(old(self)@[i as int].1.spec_model(), dt as int, interval_passed),
            final(self)@[i as int].1.spec_steps() == old(self)@[i as int].1.spec_steps(),
            final(self)@[i as int].1.spec_metronome() == old(self)@[i as int].1.spec_metronome(),
            final(self)@[i as int].1.spec_event_capacity() == old(self)@[i as int].1.spec_event_capacity(),
            final(self)@[i as int].0 == old(self)@[i as int].0,
            forall|j: int| 0 <= j < old(self)@.len() && j != i ==> #[trigger] final(self)@[j] == old(self)@[j],
    {
        let ghost s0 = self@;
        match self.sequences.get_index_mut(i) {
            Some(sequence) => sequence.wait(dt, interval_passed),
            None => {},
        }
        proof {
            assert forall|a: int, b: int| 0 <= a < self@.len() && 0 <= b < self@.len() && a != b
                implies #[trigger] self@[a].0 != #[trigger] self@[b].0 by {
                assert(self@[a].0 == s0[a].0 && self@[b].0 == s0[b].0);
            }
        }
    }

    /// Takes one step of the sequence at position `i`; returns what it asks
    /// of the engine and whether the sequence is now blocked.
    pub fn step_at(&mut self, i: usize) -> (r: (SequenceAction, bool))
        requires
            old(self).wf(),
            i < old(self)@.len(),
        ensures
            final(self).wf(),
            final(self).spec_capacity() == old(self).spec_capacity(),
            final(self)@.len() == old(self)@.len(),
            r.1 == blocked(final(self)@[i as int].1.spec_model()),
            final(self)@[i as int].0 == old(self)@[i as int].0,
            final(self)@[i as int].1.spec_steps() == old(self)@[i as int].1.spec_steps(),
            final(self)@[i as int].1.spec_metronome() == old(self)@[i as int].1.spec_metronome(),
            final(self)@[i as int].1.spec_event_capacity() == old(self)@[i as int].1.spec_event_capacity(),
            forall|j: int| 0 <= j < old(self)@.len() && j != i ==> #[trigger] final(self)@[j] == old(self)@[j],
            ({
                let m = old(self)@[i as int].1.spec_model();
                let steps = old(self)@[i as int].1.spec_steps();
                &&& blocked(m) ==> final(self)@[i as int].1.spec_model() == m && r.0 is Nothing
                &&& !blocked(m) ==> final(self)@[i as int].1.spec_model() == stepped(
                    m,
                    steps,
                    old(self)@[i as int].1.spec_event_capacity(),
                )
                &&& !blocked(m) && m.0 >= steps.len() ==> r.0 is Nothing
                &&& !blocked(m) && m.0 < steps.len() ==> match steps[m.0] {
                    SequenceStep::PlaySound(snd, settings) => r.0 == SequenceAction::PlaySound(snd, settings),
                    SequenceStep::SetParameter(id, v, tw) => r.0 == SequenceAction::SetParameter(id, v, tw),
                    _ => r.0 is Nothing,
                }
            }),
    {
        let ghost s0 = self@;
        let r = match self.sequences.get_index_mut(i) {
            Some(sequence) => {
                let action = sequence.step();
                (action, sequence.is_blocked())
            },
            None => (SequenceAction::Nothing, true),
        };
        proof {
            assert forall|a: int, b: int| 0 <= a < self@.len() && 0 <= b < self@.len() && a != b
                implies #[trigger] self@[a].0 != #[trigger] self@[b].0 by {
                assert(self@[a].0 == s0[a].0 && self@[b].0 == s0[b].0);
            }
        }
        r
    }

    /// Takes the oldest waiting custom event of the sequence `id`, if any.
    pub fn pop_event(&mut self, id: SequenceInstanceId) -> (r: Option<u64>)
        requires
            old(self).wf(),
        ensures
            final(self).wf(),
            final(self).spec_capacity() == old(self).spec_capacity(),
            final(self)@.len() == old(self)@.len(),
            find_key(old(self)@, id.index) == -1 ==> r is None && final(self)@ == old(self)@,
            find_key(old(self)@, id.index) >= 0 ==> {
                let i = find_key(old(self)@, id.index);
                let m = old(self)@[i].1.spec_model();
                &&& m.4.len() == 0 ==> r is None && final(self)@[i].1.spec_model() == m
                &&& m.4.len() > 0 ==> r == Some(m.4[0]) && final(self)@[i].1.spec_model() == (
                    m.0,
                    m.1,
                    m.2,
                    m.3,
                    m.4.drop_first(),
                )
            },
            forall|j: int| 0 <= j < old(self)@.len() ==> {
                &&& (#[trigger] final(self)@[j]).0 == old(self)@[j].0
                &&& j != find_key(old(self)@, id.index) ==> final(self)@[j] == old(self)@[j]
            },
    {
        proof {
            lemma_u64_keys();
            lemma_find_key(self@, id.index);
        }
        let ghost s0 = self@;
        let r = match self.sequences.get_mut(&id.index) {
            Some(sequence) => sequence.pop_event(),
            None => None,
        };
        proof {
            assert forall|a: int, b: int| 0 <= a < self@.len() && 0 <= b < self@.len() && a != b
                implies #[trigger] self@[a].0 != #[trigger] self@[b].0 by {
                assert(self@[a].0 == s0[a].0 && self@[b].0 == s0[b].0);
            }
        }
        r
    }
}

/// A sequence that is not playing takes no step and waits for nothing: a
/// paused or finished sequence stays exactly as it is through a tick.
pub proof fn idle_sequence_stays(m: SequenceModel, dt: int, interval_passed: bool)
    requires
        m.3 != SequenceState::Playing,
    ensures
        waited(m, dt, interval_passed) == m,
        blocked(m),
{
}

} // verus!
