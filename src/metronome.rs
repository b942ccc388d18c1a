//! Beat counters driven by a tempo, emitting events on beat intervals.
//!
//! A tempo is in beats per minute on the fixed-point scale (`UNIT` is one
//! beat per minute); intervals are in beats on the same scale. A metronome
//! counts progress in tempo-ticks: one tick at a tempo of `t` adds `t`, so
//! `progress / (60 * ticks_per_second)` is the number of beats, on the
//! fixed-point scale.
use vstd::prelude::*;
use crate::frame::UNIT;
use crate::id::lemma_u64_keys;
use crate::parameter::Parameters;
use crate::value::{CachedValue, Value};
use crate::vec_map::{find_key, keys_unique, lemma_find_key, lemma_without_key_sub, without_key, VecMap};

verus! {

/// The most progress a metronome counts before it stops counting.
pub const PROGRESS_LIMIT: i64 = 0x4000_0000_0000_0000;

/// A unique identifier for a metronome.
#[derive(Debug, Clone, Copy, PartialEq, Eq, Hash, Structural)]
pub struct MetronomeId {
    pub index: u64,
}

impl MetronomeId {
    /// The identifier with the given counter value.
    pub fn new(index: u64) -> (r: MetronomeId)
        ensures
            r.index == index,
    {
        MetronomeId { index }
    }
}

/// How a metronome is set up.
pub struct MetronomeSettings {
    /// The tempo, in beats per minute.
    pub tempo: Value,
    /// The intervals, in beats, that emit an event each time the beat count
    /// crosses a multiple of them. Intervals that are not positive never emit.
    pub interval_events_to_emit: Vec<i64>,
    /// How many events can wait to be collected.
    pub event_queue_capacity: usize,
}

impl MetronomeSettings {
    /// 120 beats per minute, no interval events, room for 10 events.
    pub fn new() -> (r: MetronomeSettings)
        ensures
            r.tempo == Value::Fixed((120 * UNIT) as i32),
            r.interval_events_to_emit@.len() == 0,
            r.event_queue_capacity == 10,
    {
        MetronomeSettings { tempo: Value::Fixed(120 * UNIT), interval_events_to_emit: Vec::new(), event_queue_capacity: 10 }
    }

    /// The same settings with the given tempo.
    pub fn tempo(self, tempo: Value) -> (r: MetronomeSettings)
        ensures
            r.tempo == tempo,
            r.interval_events_to_emit@ == self.interval_events_to_emit@,
            r.event_queue_capacity == self.event_queue_capacity,
    {
        MetronomeSettings { tempo, ..self }
    }

    /// The same settings with the given intervals.
    pub fn interval_events_to_emit(self, interval_events_to_emit: Vec<i64>) -> (r: MetronomeSettings)
        ensures
            r.tempo == self.tempo,
            r.interval_events_to_emit@ == interval_events_to_emit@,
            r.event_queue_capacity == self.event_queue_capacity,
    {
        MetronomeSettings { interval_events_to_emit, ..self }
    }

    /// The same settings with room for the given number of events.
    pub fn event_queue_capacity(self, event_queue_capacity: usize) -> (r: MetronomeSettings)
        ensures
            r.tempo == self.tempo,
            r.interval_events_to_emit@ == self.interval_events_to_emit@,
            r.event_queue_capacity == event_queue_capacity,
    {
        MetronomeSettings { event_queue_capacity, ..self }
    }
}

/// Whether going from `old` to `new` progress crosses a multiple of
/// `interval` beats, when one beat is `per_beat` progress on the
/// fixed-point scale.
pub open spec fn crosses(old: int, new: int, interval: int, per_beat: int) -> bool {
    interval > 0 && new / (interval * per_beat) > old / (interval * per_beat)
}

/// `events` with each interval of `intervals` that is crossed appended in
/// order, as long as fewer than `capacity` events are waiting.
pub open spec fn emitted(events: Seq<i64>, intervals: Seq<i64>, old: int, new: int, per_beat: int, capacity: int) -> Seq<i64>
    decreases intervals.len(),
{
    if intervals.len() == 0 {
        events
    } else {
        let before = emitted(events, intervals.drop_last(), old, new, per_beat, capacity);
        if crosses(old, new, intervals.last() as int, per_beat) && before.len() < capacity {
            before.push(intervals.last())
        } else {
            before
        }
    }
}

/// How one tick of `dt` ticks against `parameters` takes the metronome `old`
/// to `new` (see [`Metronome::update`]).
pub open spec fn metronome_updated(old: Metronome, new: Metronome, dt: u32, parameters: &Parameters) -> bool {
    &&& new.spec_running() == old.spec_running()
    &&& new.spec_per_beat() == old.spec_per_beat()
    &&& new.spec_intervals() == old.spec_intervals()
    &&& new.spec_event_capacity() == old.spec_event_capacity()
    &&& new.spec_previous() == old.spec_progress()
    &&& !old.spec_running() ==> new.spec_progress() == old.spec_progress() && new.spec_events() == old.spec_events()
        && new.spec_tempo() == old.spec_tempo()
    &&& old.spec_running() ==> {
        let tempo = crate::instance::refreshed_value(old.spec_tempo(), parameters);
        let step = if tempo > 0 { tempo * dt } else { 0 };
        let progress = if old.spec_progress() + step > PROGRESS_LIMIT {
            PROGRESS_LIMIT as int
        } else {
            old.spec_progress() + step
        };
        &&& new.spec_tempo() == old.spec_tempo().spec_refreshed(parameters)
        &&& new.spec_progress() == progress
        &&& new.spec_events() == emitted(
            old.spec_events(),
            old.spec_intervals(),
            old.spec_progress(),
            progress,
            old.spec_per_beat(),
            old.spec_event_capacity() as int,
        )
    }
}

/// A beat counter.
pub struct Metronome {
    tempo: CachedValue,
    ticks_per_second: u32,
    progress: i64,
    previous: i64,
    running: bool,
    interval_events_to_emit: Vec<i64>,
    events: Vec<i64>,
    event_queue_capacity: usize,
}

impl Metronome {
    /// The tempo.
    pub closed spec fn spec_tempo(&self) -> CachedValue {
        self.tempo
    }

    /// The progress counted so far, in tempo-ticks.
    pub closed spec fn spec_progress(&self) -> int {
        self.progress as int
    }

    /// The progress counted before the last tick.
    pub closed spec fn spec_previous(&self) -> int {
        self.previous as int
    }

    /// Whether the metronome is counting.
    pub closed spec fn spec_running(&self) -> bool {
        self.running
    }

    /// Progress per beat on the fixed-point scale: 60 times the tick rate.
    pub closed spec fn spec_per_beat(&self) -> int {
        60 * self.ticks_per_second
    }

    /// The intervals that emit events.
    pub closed spec fn spec_intervals(&self) -> Seq<i64> {
        self.interval_events_to_emit@
    }

    /// The events waiting to be collected, oldest first.
    pub closed spec fn spec_events(&self) -> Seq<i64> {
        self.events@
    }

    /// How many events can wait.
    pub closed spec fn spec_event_capacity(&self) -> nat {
        self.event_queue_capacity as nat
    }

    /// Progress stays within its limit, the tick rate is positive, and no
    /// more events wait than there is room for.
    pub closed spec fn wf(&self) -> bool {
        &&& 0 <= self.progress <= PROGRESS_LIMIT
        &&& 0 <= self.previous <= PROGRESS_LIMIT
        &&& self.ticks_per_second > 0
        &&& self.events@.len() <= self.event_queue_capacity
    }

    /// A stopped metronome at beat 0, for an output of `ticks_per_second`.
    pub fn new(settings: MetronomeSettings, ticks_per_second: u32) -> (r: Metronome)
        requires
            ticks_per_second > 0,
        ensures
            r.wf(),
            r.spec_progress() == 0,
            !r.spec_running(),
            r.spec_tempo().spec_setting() == settings.tempo,
            r.spec_intervals() == settings.interval_events_to_emit@,
            r.spec_events() == Seq::<i64>::empty(),
            r.spec_event_capacity() == settings.event_queue_capacity,
            r.spec_per_beat() == 60 * ticks_per_second,
    {
        Metronome {
            tempo: CachedValue::new(settings.tempo, 120 * UNIT),
            ticks_per_second,
            progress: 0,
            previous: 0,
            running: false,
            interval_events_to_emit: settings.interval_events_to_emit,
            events: Vec::with_capacity(settings.event_queue_capacity),
            event_queue_capacity: settings.event_queue_capacity,
        }
    }

    /// Whether the metronome is well formed.
    pub fn is_wf(&self) -> (r: bool)
        ensures
            r == self.wf(),
    {
        self.progress >= 0 && self.progress <= PROGRESS_LIMIT && self.previous >= 0 && self.previous
            <= PROGRESS_LIMIT && self.ticks_per_second > 0
            && self.events.len() <= self.event_queue_capacity
    }

    /// The beats counted so far, on the fixed-point scale.
    pub fn beats(&self) -> (r: i64)
        requires
            self.wf(),
        ensures
            r == self.spec_progress() / self.spec_per_beat(),
    {
        self.progress / (60 * self.ticks_per_second as i64)
    }

    /// Whether the last tick crossed a multiple of `interval` beats.
    pub fn interval_passed(&self, interval: i64) -> (r: bool)
        requires
            self.wf(),
        ensures
            r == crosses(self.spec_previous(), self.spec_progress(), interval as int, self.spec_per_beat()),
    {
        let per_beat: i64 = 60 * self.ticks_per_second as i64;
        if interval <= 0 {
            return false;
        }
        if interval > PROGRESS_LIMIT / per_beat {
            proof {
                let size: int = interval * per_beat;
                let a: int = self.progress as int;
                let b: int = self.previous as int;
                assert(size > PROGRESS_LIMIT) by (nonlinear_arith)
                    requires
                        interval > PROGRESS_LIMIT / per_beat,
                        per_beat > 0,
                        size == interval * per_beat,
                ;
                assert(a / size == 0 && b / size == 0) by (nonlinear_arith)
                    requires
                        size > PROGRESS_LIMIT,
                        0 <= b <= PROGRESS_LIMIT,
                        0 <= a <= PROGRESS_LIMIT,
                ;
            }
            return false;
        }
        proof {
            assert(0 < interval * per_beat <= PROGRESS_LIMIT) by (nonlinear_arith)
                requires
                    0 < interval <= PROGRESS_LIMIT / per_beat,
                    per_beat > 0,
            ;
        }
        let size = interval * per_beat;
        self.progress / size > self.previous / size
    }

    /// Sets the tempo.
    pub fn set_tempo(&mut self, tempo: Value)
        requires
            old(self).wf(),
        ensures
            final(self).spec_per_beat() == old(self).spec_per_beat(),
            final(self).spec_intervals() == old(self).spec_intervals(),
            final(self).spec_event_capacity() == old(self).spec_event_capacity(),
            final(self).wf(),
            final(self).spec_tempo().spec_setting() == tempo,
            final(self).spec_progress() == old(self).spec_progress(),
            final(self).spec_running() == old(self).spec_running(),
            final(self).spec_events() == old(self).spec_events(),
    {
        self.tempo.set(tempo);
    }

    /// Starts or resumes counting.
    pub fn start(&mut self)
        requires
            old(self).wf(),
        ensures
            final(self).spec_per_beat() == old(self).spec_per_beat(),
            final(self).spec_intervals() == old(self).spec_intervals(),
            final(self).spec_event_capacity() == old(self).spec_event_capacity(),
            final(self).wf(),
            final(self).spec_running(),
            final(self).spec_progress() == old(self).spec_progress(),
            final(self).spec_events() == old(self).spec_events(),
    {
        self.running = true;
    }

    /// Stops counting, keeping the count.
    pub fn pause(&mut self)
        requires
            old(self).wf(),
        ensures
            final(self).spec_per_beat() == old(self).spec_per_beat(),
            final(self).spec_intervals() == old(self).spec_intervals(),
            final(self).spec_event_capacity() == old(self).spec_event_capacity(),
            final(self).wf(),
            !final(self).spec_running(),
            final(self).spec_progress() == old(self).spec_progress(),
            final(self).spec_events() == old(self).spec_events(),
    {
        self.running = false;
    }

    /// Stops counting and goes back to beat 0.
    pub fn stop(&mut self)
        requires
            old(self).wf(),
        ensures
            final(self).spec_per_beat() == old(self).spec_per_beat(),
            final(self).spec_intervals() == old(self).spec_intervals(),
            final(self).spec_event_capacity() == old(self).spec_event_capacity(),
            final(self).wf(),
            !final(self).spec_running(),
            final(self).spec_progress() == 0,
            final(self).spec_events() == old(self).spec_events(),
    {
        self.running = false;
        self.progress = 0;
        self.previous = 0;
    }

    /// Advances a running metronome by `dt` ticks at its tempo, refreshed
    /// from `parameters` (a negative tempo counts as 0), and queues an event
    /// for each interval whose multiple the count crosses, while there is
    /// room. A metronome that is not running is left as it is.
    pub fn update(&mut self, dt: u32, parameters: &Parameters)
        requires
            old(self).wf(),
        ensures
            final(self).wf(),
            metronome_updated(*old(self), *final(self), dt, parameters),
    {
        if !self.running {
            self.previous = self.progress;
            return;
        }
        self.tempo.update(parameters);
        let tempo = self.tempo.value() as i64;
        let step: i64 = if tempo > 0 {
            proof {
                assert(0 <= tempo * dt <= 0x7fff_fffe_8000_0001) by (nonlinear_arith)
                    requires
                        0 < tempo <= 0x7fff_ffff,
                        0 <= dt <= 0xffff_ffff,
                ;
            }
            tempo * dt as i64
        } else {
            0
        };
        let previous = self.progress;
        let progress = if step > PROGRESS_LIMIT - previous {
            PROGRESS_LIMIT
        } else {
            previous + step
        };
        self.progress = progress;
        self.previous = previous;
        let per_beat: i64 = 60 * self.ticks_per_second as i64;
        let n = self.interval_events_to_emit.len();
        let mut i: usize = 0;
        let ghost events0 = self.events@;
        while i < n
            invariant
                i <= n,
                n == self.interval_events_to_emit@.len(),
                self.interval_events_to_emit@ == old(self).interval_events_to_emit@,
                per_beat == 60 * self.ticks_per_second,
                self.ticks_per_second == old(self).ticks_per_second,
                self.ticks_per_second > 0,
                self.event_queue_capacity == old(self).event_queue_capacity,
                self.events@ == emitted(
                    events0,
                    self.interval_events_to_emit@.subrange(0, i as int),
                    previous as int,
                    progress as int,
                    per_beat as int,
                    self.event_queue_capacity as int,
                ),
                self.events@.len() <= self.event_queue_capacity,
                0 <= previous <= progress <= PROGRESS_LIMIT,
                self.progress == progress,
                self.previous == previous,
                self.tempo == old(self).tempo.spec_refreshed(parameters),
                self.running == old(self).running,
            decreases n - i,
        {
            let interval = self.interval_events_to_emit[i];
            let crossed = if interval > 0 && interval <= PROGRESS_LIMIT / per_beat {
                proof {
                    assert(0 < interval * per_beat <= PROGRESS_LIMIT) by (nonlinear_arith)
                        requires
                            0 < interval <= PROGRESS_LIMIT / per_beat,
                            per_beat > 0,
                    ;
                }
                let size = interval * per_beat;
                progress / size > previous / size
            } else if interval > 0 {
                proof {
                    let size: int = interval * per_beat;
                    let a: int = progress as int;
                    let b: int = previous as int;
                    assert(size > PROGRESS_LIMIT) by (nonlinear_arith)
                        requires
                            interval > PROGRESS_LIMIT / per_beat,
                            per_beat > 0,
                            size == interval * per_beat,
                    ;
                    assert(a / size == 0 && b / size == 0) by (nonlinear_arith)
                        requires
                            size > PROGRESS_LIMIT,
                            0 <= b <= PROGRESS_LIMIT,
                            0 <= a <= PROGRESS_LIMIT,
                    ;
                }
                false
            } else {
                false
            };
            proof {
                if interval > 0 && interval <= PROGRESS_LIMIT / per_beat {
                    assert(interval * per_beat <= PROGRESS_LIMIT) by (nonlinear_arith)
                        requires
                            interval <= PROGRESS_LIMIT / per_beat,
                            per_beat > 0,
                    ;
                }
                let s = self.interval_events_to_emit@.subrange(0, i + 1);
                assert(s.drop_last() =~= self.interval_events_to_emit@.subrange(0, i as int));
                assert(s.last() == interval);
            }
            if crossed && self.events.len() < self.event_queue_capacity {
                self.events.push(interval);
            }
            i = i + 1;
        }
        proof {
            assert(self.interval_events_to_emit@.subrange(0, n as int) =~= self.interval_events_to_emit@);
        }
    }

    /// Takes the oldest waiting event, if any.
    pub fn pop_event(&mut self) -> (r: Option<i64>)
        requires
            old(self).wf(),
        ensures
            final(self).wf(),
            final(self).spec_progress() == old(self).spec_progress(),
            final(self).spec_running() == old(self).spec_running(),
            final(self).spec_per_beat() == old(self).spec_per_beat(),
            final(self).spec_intervals() == old(self).spec_intervals(),
            final(self).spec_event_capacity() == old(self).spec_event_capacity(),
            old(self).spec_events().len() == 0 ==> r is None && final(self).spec_events() == old(self).spec_events(),
            old(self).spec_events().len() > 0 ==> r == Some(old(self).spec_events()[0])
                && final(self).spec_events() == old(self).spec_events().drop_first(),
    {
        if self.events.len() == 0 {
            None
        } else {
            let e = self.events.remove(0);
            proof {
                assert(self.events@ =~= old(self).events@.drop_first());
            }
            Some(e)
        }
    }
}

/// Something the control thread asks of a metronome.
#[derive(Debug, Clone, Copy)]
pub enum MetronomeCommand {
    SetTempo(Value),
    Start,
    Pause,
    Stop,
}

/// How carrying out `command` takes the metronome `old` to `new`.
pub open spec fn metronome_commanded(old: Metronome, new: Metronome, command: MetronomeCommand) -> bool {
    &&& new.spec_events() == old.spec_events()
    &&& new.spec_per_beat() == old.spec_per_beat()
    &&& new.spec_intervals() == old.spec_intervals()
    &&& new.spec_event_capacity() == old.spec_event_capacity()
    &&& match command {
        MetronomeCommand::SetTempo(t) => {
            &&& new.spec_tempo().spec_setting() == t
            &&& new.spec_progress() == old.spec_progress()
            &&& new.spec_running() == old.spec_running()
        },
        MetronomeCommand::Start => new.spec_running() && new.spec_progress() == old.spec_progress(),
        MetronomeCommand::Pause => !new.spec_running() && new.spec_progress() == old.spec_progress(),
        MetronomeCommand::Stop => !new.spec_running() && new.spec_progress() == 0,
    }
}

impl Metronome {
    /// Carries out `command`.
    pub fn run_command(&mut self, command: MetronomeCommand)
        requires
            old(self).wf(),
        ensures
            final(self).wf(),
            metronome_commanded(*old(self), *final(self), command),
    {
        match command {
            MetronomeCommand::SetTempo(tempo) => self.set_tempo(tempo),
            MetronomeCommand::Start => self.start(),
            MetronomeCommand::Pause => self.pause(),
            MetronomeCommand::Stop => self.stop(),
        }
    }
}

/// The audio thread's metronomes, in the order they were added.
pub struct Metronomes {
    metronomes: VecMap<u64, Metronome>,
}

impl View for Metronomes {
    type V = Seq<(u64, Metronome)>;

    closed spec fn view(&self) -> Seq<(u64, Metronome)> {
        self.metronomes@
    }
}

impl Metronomes {
    /// The most metronomes the registry holds.
    pub closed spec fn spec_capacity(&self) -> nat {
        self.metronomes.spec_capacity()
    }

    /// The registry fits its capacity, identifiers are unique, and every
    /// metronome is well formed.
    pub open spec fn wf(&self) -> bool {
        &&& self@.len() <= self.spec_capacity()
        &&& keys_unique(self@)
        &&& forall|i: int| 0 <= i < self@.len() ==> #[trigger] self@[i].1.wf()
    }

    /// An empty registry for up to `capacity` metronomes.
    pub fn new(capacity: usize) -> (r: Metronomes)
        ensures
            r@ == Seq::<(u64, Metronome)>::empty(),
            r.spec_capacity() == capacity,
            r.wf(),
    {
        Metronomes { metronomes: VecMap::new(capacity) }
    }

    /// Registers `metronome` under `id`. A metronome that leaves the registry
    /// (replaced, or refused because the registry is full) is handed back.
    pub fn add(&mut self, id: MetronomeId, metronome: Metronome) -> (r: Option<Metronome>)
        requires
            old(self).wf(),
            metronome.wf(),
        ensures
            final(self).wf(),
            final(self).spec_capacity() == old(self).spec_capacity(),
            ({
                let rest = without_key(old(self)@, id.index);
                let i = find_key(old(self)@, id.index);
                &&& rest.len() < old(self).spec_capacity() ==> final(self)@ == rest.push((id.index, metronome))
                    && r == (if i >= 0 { Some(old(self)@[i].1) } else { None })
                &&& rest.len() >= old(self).spec_capacity() ==> final(self)@ == rest && r == Some(metronome)
            }),
    {
        proof {
            lemma_u64_keys();
            lemma_find_key(self@, id.index);
        }
        let ghost s0 = self@;
        let r = match self.metronomes.insert(id.index, metronome) {
            Ok(previous) => previous,
            Err(metronome) => Some(metronome),
        };
        proof {
            lemma_without_key_sub(s0, id.index);
            let rest = without_key(s0, id.index);
            assert forall|i: int| 0 <= i < self@.len() implies #[trigger] self@[i].1.wf() by {
                if i < rest.len() {
                    assert(self@[i] == rest[i]);
                    let k = choose|k: int| 0 <= k < s0.len() && #[trigger] rest[i] == s0[k];
                }
            }
        }
        r
    }

    /// Unregisters the metronome `id` and hands it back, if it was registered.
    pub fn remove(&mut self, id: MetronomeId) -> (r: Option<Metronome>)
        requires
            old(self).wf(),
        ensures
            final(self).wf(),
            final(self).spec_capacity() == old(self).spec_capacity(),
            final(self)@ == without_key(old(self)@, id.index),
            find_key(old(self)@, id.index) == -1 ==> r is None,
            find_key(old(self)@, id.index) >= 0 ==> r == Some(old(self)@[find_key(old(self)@, id.index)].1),
    {
        proof {
            lemma_u64_keys();
            lemma_find_key(self@, id.index);
        }
        let ghost s0 = self@;
        let r = self.metronomes.remove(&id.index);
        proof {
            lemma_without_key_sub(s0, id.index);
            let rest = without_key(s0, id.index);
            assert forall|i: int| 0 <= i < self@.len() implies #[trigger] self@[i].1.wf() by {
                let k = choose|k: int| 0 <= k < s0.len() && #[trigger] rest[i] == s0[k];
            }
        }
        r
    }

    /// Carries out `command` on the metronome `id`, if it is registered.
    pub fn run_command(&mut self, id: MetronomeId, command: MetronomeCommand)
        requires
            old(self).wf(),
        ensures
            final(self).wf(),
            final(self).spec_capacity() == old(self).spec_capacity(),
            final(self)@.len() == old(self)@.len(),
            forall|j: int| 0 <= j < old(self)@.len() ==> {
                &&& (#[trigger] final(self)@[j]).0 == old(self)@[j].0
                &&& j != find_key(old(self)@, id.index) ==> final(self)@[j] == old(self)@[j]
                &&& j == find_key(old(self)@, id.index) ==> metronome_commanded(
                    old(self)@[j].1,
                    final(self)@[j].1,
                    command,
                )
            },
    {
        proof {
            lemma_u64_keys();
            lemma_find_key(self@, id.index);
        }
        let ghost s0 = self@;
        match self.metronomes.get_mut(&id.index) {
            Some(metronome) => {
                metronome.run_command(command);
            },
            None => {},
        }
        proof {
            assert forall|a: int, b: int| 0 <= a < self@.len() && 0 <= b < self@.len() && a != b
                implies #[trigger] self@[a].0 != #[trigger] self@[b].0 by {
                assert(self@[a].0 == s0[a].0 && self@[b].0 == s0[b].0);
            }
        }
    }

    /// Advances every metronome by `dt` ticks (see [`Metronome::update`]).
    pub fn update(&mut self, dt: u32, parameters: &Parameters)
        requires
            old(self).wf(),
        ensures
            final(self).wf(),
            final(self).spec_capacity() == old(self).spec_capacity(),
            final(self)@.len() == old(self)@.len(),
            forall|j: int| 0 <= j < old(self)@.len() ==> (#[trigger] final(self)@[j]).0 == old(self)@[j].0
                && metronome_updated(old(self)@[j].1, final(self)@[j].1, dt, parameters),
    {
        let n = self.metronomes.len();
        let mut i: usize = 0;
        while i < n
            invariant
                self.wf(),
                self.spec_capacity() == old(self).spec_capacity(),
                n == old(self)@.len(),
                self@.len() == n,
                i <= n,
                forall|j: int| 0 <= j < n ==> (#[trigger] self@[j]).0 == old(self)@[j].0,
                forall|j: int| 0 <= j < i ==> metronome_updated(old(self)@[j].1, #[trigger] self@[j].1, dt, parameters),
                forall|j: int| i <= j < n ==> #[trigger] self@[j] == old(self)@[j],
            decreases n - i,
        {
            let ghost before = self@;
            match self.metronomes.get_index_mut(i) {
                Some(metronome) => {
                    metronome.update(dt, parameters);
                },
                None => {},
            }
            proof {
                assert forall|a: int, b: int| 0 <= a < self@.len() && 0 <= b < self@.len() && a != b
                    implies #[trigger] self@[a].0 != #[trigger] self@[b].0 by {
                    assert(self@[a].0 == before[a].0 && self@[b].0 == before[b].0);
                }
            }
            i = i + 1;
        }
    }

    /// Whether the last tick of the metronome `id` crossed a multiple of
    /// `interval` beats; false when there is no such metronome.
    pub fn interval_passed(&self, id: MetronomeId, interval: i64) -> (r: bool)
        requires
            self.wf(),
        ensures
            find_key(self@, id.index) == -1 ==> !r,
            find_key(self@, id.index) >= 0 ==> ({
                let m = self@[find_key(self@, id.index)].1;
                r == crosses(m.spec_previous(), m.spec_progress(), interval as int, m.spec_per_beat())
            }),
    {
        proof {
            lemma_u64_keys();
            lemma_find_key(self@, id.index);
        }
        match self.metronomes.get(&id.index) {
            Some(metronome) => metronome.interval_passed(interval),
            None => false,
        }
    }

    /// Takes the oldest waiting event of the metronome `id`, if any.
    pub fn pop_event(&mut self, id: MetronomeId) -> (r: Option<i64>)
        requires
            old(self).wf(),
        ensures
            final(self).wf(),
            final(self).spec_capacity() == old(self).spec_capacity(),
            final(self)@.len() == old(self)@.len(),
            find_key(old(self)@, id.index) == -1 ==> r is None && final(self)@ == old(self)@,
            find_key(old(self)@, id.index) >= 0 ==> {
                let events = old(self)@[find_key(old(self)@, id.index)].1.spec_events();
                &&& events.len() == 0 ==> r is None
                &&& events.len() > 0 ==> r == Some(events[0])
            },
            forall|j: int| 0 <= j < old(self)@.len() ==> {
                &&& (#[trigger] final(self)@[j]).0 == old(self)@[j].0
                &&& j != find_key(old(self)@, id.index) ==> final(self)@[j] == old(self)@[j]
            },
    {
        proof {
            lemma_u64_keys();
            lemma_find_key(self@, id.index);
        }
        let ghost s0 = self@;
        let r = match self.metronomes.get_mut(&id.index) {
            Some(metronome) => metronome.pop_event(),
            None => None,
        };
        proof {
            assert forall|a: int, b: int| 0 <= a < self@.len() && 0 <= b < self@.len() && a != b
                implies #[trigger] self@[a].0 != #[trigger] self@[b].0 by {
                assert(self@[a].0 == s0[a].0 && self@[b].0 == s0[b].0);
            }
        }
        r
    }
}

impl Default for MetronomeSettings {
    fn default() -> (r: MetronomeSettings)
        ensures
            r.tempo == Value::Fixed((120 * UNIT) as i32),
            r.interval_events_to_emit@.len() == 0,
            r.event_queue_capacity == 10,
    {
        MetronomeSettings::new()
    }
}

} // verus!
