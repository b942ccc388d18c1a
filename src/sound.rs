//! Sounds: immutable audio sources and their playback defaults.
use vstd::prelude::*;
use std::sync::Arc;
use crate::frame::{clamp_sample, trunc_div, Frame, SAMPLE_MAX, UNIT};
use crate::group::GroupId;
use crate::id::{lemma_u64_keys, SoundId};
use crate::instance::POSITION_LIMIT;
use crate::vec_map::{find_key, keys_unique, lemma_find_key, without_key, VecMap};

verus! {

/// Channel `left` (or the right one) of frame `i` of `s`; 0 outside `s`.
pub open spec fn channel_at(s: Seq<Frame>, i: int, left: bool) -> int {
    if 0 <= i < s.len() {
        if left { s[i].left as int } else { s[i].right as int }
    } else {
        0
    }
}

/// The cubic curve through four neighbouring samples `y0..y3`, taken at the
/// fraction `x / UNIT` of the way from `y1` to `y2`, limited to the range of
/// a sample. With `c1..c3` its coefficients doubled, its value is
/// `y1 + (c1 t + c2 t^2 + c3 t^3) / 2` at `t = x / UNIT`.
pub open spec fn cubic(y0: int, y1: int, y2: int, y3: int, x: int) -> int {
    let u = UNIT as int;
    let c1 = y2 - y0;
    let c2 = 2 * y0 - 5 * y1 + 4 * y2 - y3;
    let c3 = (y3 - y0) + 3 * (y1 - y2);
    clamp_sample(y1 + trunc_div(c1 * x * u * u + c2 * x * x * u + c3 * x * x * x, 2 * u * u * u))
}

fn cubic_exec(y0: i32, y1: i32, y2: i32, y3: i32, x: i64) -> (r: i32)
    requires
        0 <= x < UNIT,
    ensures
        r == cubic(y0 as int, y1 as int, y2 as int, y3 as int, x as int),
{
    let u: i128 = UNIT as i128;
    let c1: i128 = y2 as i128 - y0 as i128;
    let c2: i128 = 2 * (y0 as i128) - 5 * (y1 as i128) + 4 * (y2 as i128) - y3 as i128;
    let c3: i128 = (y3 as i128 - y0 as i128) + 3 * (y1 as i128 - y2 as i128);
    let xx: i128 = x as i128;
    proof {
        assert(-0x1_0000_0000 <= c1 <= 0x1_0000_0000);
        assert(-0x8_0000_0000 <= c2 <= 0x8_0000_0000);
        assert(-0x8_0000_0000 <= c3 <= 0x8_0000_0000);
        assert(0 <= xx * xx <= 0x1_0000_0000) by (nonlinear_arith)
            requires
                0 <= xx < 0x1_0000,
        ;
        assert(0 <= xx * xx * xx <= 0x1_0000_0000_0000) by (nonlinear_arith)
            requires
                0 <= xx < 0x1_0000,
                0 <= xx * xx <= 0x1_0000_0000,
        ;
        assert(-0x1_0000_0000_0000_0000_0000 <= c1 * xx * u * u <= 0x1_0000_0000_0000_0000_0000) by (nonlinear_arith)
            requires
                -0x1_0000_0000 <= c1 <= 0x1_0000_0000,
                0 <= xx < 0x1_0000,
                u == 0x1_0000,
        ;
        assert(-0x8_0000_0000_0000 <= c2 * xx <= 0x8_0000_0000_0000) by (nonlinear_arith)
            requires
                -0x8_0000_0000 <= c2 <= 0x8_0000_0000,
                0 <= xx < 0x1_0000,
        ;
        assert(-0x8_0000_0000_0000 <= c3 * xx <= 0x8_0000_0000_0000) by (nonlinear_arith)
            requires
                -0x8_0000_0000 <= c3 <= 0x8_0000_0000,
                0 <= xx < 0x1_0000,
        ;
        assert(-0x8_0000_0000_0000_0000 <= c2 * xx * xx <= 0x8_0000_0000_0000_0000) by (nonlinear_arith)
            requires
                -0x8_0000_0000 <= c2 <= 0x8_0000_0000,
                0 <= xx < 0x1_0000,
        ;
        assert(-0x8_0000_0000_0000_0000 <= c3 * xx * xx <= 0x8_0000_0000_0000_0000) by (nonlinear_arith)
            requires
                -0x8_0000_0000 <= c3 <= 0x8_0000_0000,
                0 <= xx < 0x1_0000,
        ;
        assert(-0x8_0000_0000_0000_0000_0000 <= c2 * xx * xx * u <= 0x8_0000_0000_0000_0000_0000) by (nonlinear_arith)
            requires
                -0x8_0000_0000 <= c2 <= 0x8_0000_0000,
                0 <= xx * xx <= 0x1_0000_0000,
                u == 0x1_0000,
        ;
        assert(-0x8_0000_0000_0000_0000_0000 <= c3 * xx * xx * xx <= 0x8_0000_0000_0000_0000_0000) by (nonlinear_arith)
            requires
                -0x8_0000_0000_0000_0000 <= c3 * xx * xx <= 0x8_0000_0000_0000_0000,
                0 <= xx < 0x1_0000,
        ;
    }
    let num: i128 = c1 * xx * u * u + c2 * xx * xx * u + c3 * xx * xx * xx;
    let den: i128 = 2 * u * u * u;
    proof {
        let n = num as int;
        let d = den as int;
        assert(n >= 0 ==> 0 <= n / d <= n) by (nonlinear_arith)
            requires d >= 1;
        assert(n < 0 ==> 0 <= (-n) / d <= -n) by (nonlinear_arith)
            requires d >= 1;
    }
    let q: i128 = if num >= 0 { num / den } else { -((-num) / den) };
    let v: i128 = y1 as i128 + q;
    if v > SAMPLE_MAX as i128 {
        SAMPLE_MAX
    } else if v < -(SAMPLE_MAX as i128) {
        -SAMPLE_MAX
    } else {
        v as i32
    }
}

/// Audio held in memory, one frame per tick.
pub struct StaticSoundData {
    frames: Vec<Frame>,
}

impl View for StaticSoundData {
    type V = Seq<Frame>;

    closed spec fn view(&self) -> Seq<Frame> {
        self.frames@
    }
}

/// The most frames a sound can hold.
pub const MAX_FRAMES: u64 = 0x2000_0000_0000;

impl StaticSoundData {
    #[verifier::type_invariant]
    spec fn fits(&self) -> bool {
        self.frames@.len() <= MAX_FRAMES
    }

    /// The length of the audio in position units.
    pub open spec fn spec_duration(&self) -> int {
        self@.len() * UNIT
    }

    /// The frame heard at position `pos`: the frames around the tick that
    /// `pos` falls in, interpolated by a cubic curve at the fraction of the
    /// tick; silence outside the audio.
    pub open spec fn spec_frame_at(&self, pos: int) -> Frame {
        if pos < 0 || pos / (UNIT as int) >= self@.len() {
            Frame { left: 0, right: 0 }
        } else {
            let i = pos / (UNIT as int);
            let x = pos % (UNIT as int);
            Frame {
                left: cubic(
                    channel_at(self@, i - 1, true),
                    channel_at(self@, i, true),
                    channel_at(self@, i + 1, true),
                    channel_at(self@, i + 2, true),
                    x,
                ) as i32,
                right: cubic(
                    channel_at(self@, i - 1, false),
                    channel_at(self@, i, false),
                    channel_at(self@, i + 1, false),
                    channel_at(self@, i + 2, false),
                    x,
                ) as i32,
            }
        }
    }

    /// Audio made of `frames`.
    pub fn new(frames: Vec<Frame>) -> (r: StaticSoundData)
        requires
            frames@.len() <= MAX_FRAMES,
        ensures
            r@ == frames@,
    {
        StaticSoundData { frames }
    }

    /// The length of the audio in position units.
    pub fn duration(&self) -> (r: i64)
        ensures
            r == self.spec_duration(),
            0 <= r <= POSITION_LIMIT,
    {
        proof {
            use_type_invariant(self);
        }
        self.frames.len() as i64 * UNIT as i64
    }

    fn channel(&self, i: i64, left: bool) -> (r: i32)
        ensures
            r == channel_at(self@, i as int, left),
    {
        if i < 0 || i as u64 >= self.frames.len() as u64 {
            0
        } else if left {
            self.frames[i as usize].left
        } else {
            self.frames[i as usize].right
        }
    }

    /// The frame heard at position `pos`.
    pub fn frame_at(&self, pos: i64) -> (r: Frame)
        ensures
            r == self.spec_frame_at(pos as int),
    {
        if pos < 0 {
            return Frame { left: 0, right: 0 };
        }
        let i = pos / (UNIT as i64);
        if (i as u64) >= self.frames.len() as u64 {
            return Frame { left: 0, right: 0 };
        }
        let x = pos % (UNIT as i64);
        let left = cubic_exec(self.channel(i - 1, true), self.channel(i, true), self.channel(i + 1, true), self.channel(i + 2, true), x);
        let right = cubic_exec(
            self.channel(i - 1, false),
            self.channel(i, false),
            self.channel(i + 1, false),
            self.channel(i + 2, false),
            x,
        );
        Frame { left, right }
    }
}

/// Playback defaults of a sound.
#[derive(Debug, Clone, Copy)]
pub struct SoundSettings {
    /// Where instances loop back to by default, if anywhere.
    pub default_loop_start: Option<i64>,
    /// The fewest ticks between the starts of two instances, if limited.
    pub cooldown: Option<u32>,
}

impl SoundSettings {
    /// No default loop and no cooldown.
    pub fn new() -> (r: SoundSettings)
        ensures
            r.default_loop_start is None,
            r.cooldown is None,
    {
        SoundSettings { default_loop_start: None, cooldown: None }
    }

    /// The same settings with the given default loop start.
    pub fn default_loop_start(self, default_loop_start: Option<i64>) -> (r: SoundSettings)
        ensures
            r.default_loop_start == default_loop_start,
            r.cooldown == self.cooldown,
    {
        SoundSettings { default_loop_start, ..self }
    }

    /// The same settings with the given cooldown.
    pub fn cooldown(self, cooldown: Option<u32>) -> (r: SoundSettings)
        ensures
            r.default_loop_start == self.default_loop_start,
            r.cooldown == cooldown,
    {
        SoundSettings { cooldown, ..self }
    }
}

/// A loaded sound: shared audio data and its playback defaults.
pub struct Sound {
    data: Arc<StaticSoundData>,
    default_loop_start: Option<i64>,
    cooldown: Option<u32>,
    cooldown_timer: u32,
    groups: Arc<Vec<u64>>,
}

impl Sound {
    /// The sound's audio.
    pub closed spec fn spec_data(&self) -> StaticSoundData {
        *self.data
    }

    /// Where instances loop back to by default, if anywhere.
    pub closed spec fn spec_default_loop_start(&self) -> Option<i64> {
        self.default_loop_start
    }

    /// The fewest ticks between instance starts, if limited.
    pub closed spec fn spec_cooldown(&self) -> Option<u32> {
        self.cooldown
    }

    /// Ticks left before another instance may start.
    pub closed spec fn spec_cooldown_timer(&self) -> u32 {
        self.cooldown_timer
    }

    /// The indices of the groups the sound is tagged with.
    pub closed spec fn spec_groups(&self) -> Seq<u64> {
        self.groups@
    }

    /// A sound playing `data` with the given defaults, ready to start an instance.
    pub fn new(data: Arc<StaticSoundData>, settings: SoundSettings) -> (r: Sound)
        ensures
            r.spec_data() == *data,
            r.spec_default_loop_start() == settings.default_loop_start,
            r.spec_cooldown() == settings.cooldown,
            r.spec_cooldown_timer() == 0,
            r.spec_groups().len() == 0,
    {
        Sound {
            data,
            default_loop_start: settings.default_loop_start,
            cooldown: settings.cooldown,
            cooldown_timer: 0,
            groups: Arc::new(Vec::new()),
        }
    }

    /// The same sound tagged with the given groups.
    pub fn in_groups(self, groups: &Vec<GroupId>) -> (r: Sound)
        ensures
            r.spec_data() == self.spec_data(),
            r.spec_default_loop_start() == self.spec_default_loop_start(),
            r.spec_cooldown() == self.spec_cooldown(),
            r.spec_cooldown_timer() == self.spec_cooldown_timer(),
            r.spec_groups().len() == groups@.len(),
            forall|i: int| 0 <= i < groups@.len() ==> #[trigger] r.spec_groups()[i] == groups@[i].index,
    {
        let mut indices: Vec<u64> = Vec::new();
        let mut i: usize = 0;
        while i < groups.len()
            invariant
                i <= groups@.len(),
                indices@.len() == i,
                forall|j: int| 0 <= j < i ==> #[trigger] indices@[j] == groups@[j].index,
            decreases groups@.len() - i,
        {
            indices.push(groups[i].index);
            i = i + 1;
        }
        Sound { groups: Arc::new(indices), ..self }
    }

    /// The groups the sound is tagged with, shared.
    pub fn groups(&self) -> (r: &Arc<Vec<u64>>)
        ensures
            r@ == self.spec_groups(),
    {
        &self.groups
    }

    /// The sound's audio.
    pub fn data(&self) -> (r: &Arc<StaticSoundData>)
        ensures
            **r == self.spec_data(),
    {
        &self.data
    }

    /// Where instances loop back to by default, if anywhere.
    pub fn default_loop_start(&self) -> (r: Option<i64>)
        ensures
            r == self.spec_default_loop_start(),
    {
        self.default_loop_start
    }

    /// Whether the cooldown has run out.
    pub fn cooled_down(&self) -> (r: bool)
        ensures
            r == (self.spec_cooldown_timer() == 0),
    {
        self.cooldown_timer == 0
    }

    /// Starts the cooldown, if the sound has one.
    pub fn start_cooldown(&mut self)
        ensures
            final(self).spec_groups() == old(self).spec_groups(),
            final(self).spec_data() == old(self).spec_data(),
            final(self).spec_default_loop_start() == old(self).spec_default_loop_start(),
            final(self).spec_cooldown() == old(self).spec_cooldown(),
            final(self).spec_cooldown_timer() == match old(self).spec_cooldown() {
                Some(c) => c,
                None => 0u32,
            },
    {
        self.cooldown_timer = match self.cooldown {
            Some(c) => c,
            None => 0,
        };
    }

    /// Lets `dt` ticks of the cooldown pass.
    pub fn update_cooldown(&mut self, dt: u32)
        ensures
            final(self).spec_groups() == old(self).spec_groups(),
            final(self).spec_data() == old(self).spec_data(),
            final(self).spec_default_loop_start() == old(self).spec_default_loop_start(),
            final(self).spec_cooldown() == old(self).spec_cooldown(),
            final(self).spec_cooldown_timer() == if old(self).spec_cooldown_timer() > dt {
                old(self).spec_cooldown_timer() - dt
            } else {
                0
            },
    {
        self.cooldown_timer = if self.cooldown_timer > dt {
            self.cooldown_timer - dt
        } else {
            0
        };
    }
}

/// Whether the sounds `new` are `old` with `dt` ticks of every cooldown passed.
pub open spec fn sounds_counted_down(old: Seq<(u64, Sound)>, new: Seq<(u64, Sound)>, dt: u32) -> bool {
    &&& new.len() == old.len()
    &&& forall|j: int| 0 <= j < old.len() ==> {
        &&& (#[trigger] new[j]).0 == old[j].0
        &&& new[j].1.spec_data() == old[j].1.spec_data()
        &&& new[j].1.spec_default_loop_start() == old[j].1.spec_default_loop_start()
        &&& new[j].1.spec_cooldown() == old[j].1.spec_cooldown()
        &&& new[j].1.spec_groups() == old[j].1.spec_groups()
        &&& new[j].1.spec_cooldown_timer() == if old[j].1.spec_cooldown_timer() > dt {
            old[j].1.spec_cooldown_timer() - dt
        } else {
            0
        }
    }
}

/// The audio thread's registry of loaded sounds, in the order they were added.
pub struct Sounds {
    sounds: VecMap<u64, Sound>,
}

impl View for Sounds {
    type V = Seq<(u64, Sound)>;

    closed spec fn view(&self) -> Seq<(u64, Sound)> {
        self.sounds@
    }
}

impl Sounds {
    /// The most sounds the registry holds.
    pub closed spec fn spec_capacity(&self) -> nat {
        self.sounds.spec_capacity()
    }

    /// The registry fits its capacity and identifiers are unique.
    pub open spec fn wf(&self) -> bool {
        &&& self@.len() <= self.spec_capacity()
        &&& keys_unique(self@)
    }

    /// The sound registered under `id`, if any.
    pub open spec fn spec_get(&self, id: SoundId) -> Option<Sound> {
        let i = find_key(self@, id.index);
        if i >= 0 { Some(self@[i].1) } else { None }
    }

    /// An empty registry for up to `capacity` sounds.
    pub fn new(capacity: usize) -> (r: Sounds)
        ensures
            r@ == Seq::<(u64, Sound)>::empty(),
            r.spec_capacity() == capacity,
            r.wf(),
    {
        Sounds { sounds: VecMap::new(capacity) }
    }

    /// The number of sounds.
    pub fn len(&self) -> (r: usize)
        ensures
            r == self@.len(),
    {
        self.sounds.len()
    }

    /// The sound registered under `id`, if any.
    pub fn get(&self, id: SoundId) -> (r: Option<&Sound>)
        ensures
            r == match self.spec_get(id) {
                Some(s) => Some(&s),
                None => None,
            },
    {
        proof {
            lemma_u64_keys();
            lemma_find_key(self@, id.index);
        }
        self.sounds.get(&id.index)
    }

    /// Registers `sound` under `id`. When the registry is full the sound is
    /// handed back; a sound already registered under `id` is replaced and
    /// handed back.
    pub fn add(&mut self, id: SoundId, sound: Sound) -> (r: Option<Sound>)
        requires
            old(self).wf(),
        ensures
            final(self).wf(),
            final(self).spec_capacity() == old(self).spec_capacity(),
            ({
                let rest = without_key(old(self)@, id.index);
                &&& rest.len() < old(self).spec_capacity() ==> final(self)@ == rest.push((id.index, sound))
                    && r == old(self).spec_get(id)
                &&& rest.len() >= old(self).spec_capacity() ==> final(self)@ == rest && r == Some(sound)
            }),
    {
        proof {
            lemma_u64_keys();
            lemma_find_key(self@, id.index);
        }
        match self.sounds.insert(id.index, sound) {
            Ok(previous) => previous,
            Err(sound) => Some(sound),
        }
    }

    /// Unregisters the sound `id` and hands it back, if it was registered.
    pub fn remove(&mut self, id: SoundId) -> (r: Option<Sound>)
        requires
            old(self).wf(),
        ensures
            final(self).wf(),
            final(self).spec_capacity() == old(self).spec_capacity(),
            final(self)@ == without_key(old(self)@, id.index),
            r == old(self).spec_get(id),
    {
        proof {
            lemma_u64_keys();
            lemma_find_key(self@, id.index);
        }
        self.sounds.remove(&id.index)
    }

    /// Starts the cooldown of the sound `id`, if it is registered.
    pub fn start_cooldown(&mut self, id: SoundId)
        requires
            old(self).wf(),
        ensures
            final(self).wf(),
            final(self).spec_capacity() == old(self).spec_capacity(),
            final(self)@.len() == old(self)@.len(),
            forall|j: int| 0 <= j < old(self)@.len() ==> {
                &&& (#[trigger] final(self)@[j]).0 == old(self)@[j].0
                &&& final(self)@[j].1.spec_data() == old(self)@[j].1.spec_data()
                &&& final(self)@[j].1.spec_default_loop_start() == old(self)@[j].1.spec_default_loop_start()
                &&& final(self)@[j].1.spec_cooldown() == old(self)@[j].1.spec_cooldown()
                &&& final(self)@[j].1.spec_groups() == old(self)@[j].1.spec_groups()
                &&& j != find_key(old(self)@, id.index) ==> final(self)@[j] == old(self)@[j]
            },
            old(self).spec_get(id) matches Some(s) ==> final(self).spec_get(id) matches Some(t)
                && t.spec_cooldown_timer() == match s.spec_cooldown() {
                Some(c) => c,
                None => 0u32,
            },
    {
        proof {
            lemma_u64_keys();
            lemma_find_key(self@, id.index);
        }
        let ghost old_s = self@;
        match self.sounds.get_mut(&id.index) {
            Some(sound) => {
                sound.start_cooldown();
            },
            None => {},
        }
        proof {
            assert forall|a: int, b: int| 0 <= a < self@.len() && 0 <= b < self@.len() && a != b
                implies #[trigger] self@[a].0 != #[trigger] self@[b].0 by {
                assert(self@[a].0 == old_s[a].0 && self@[b].0 == old_s[b].0);
            }
            let i = find_key(old_s, id.index);
            if i >= 0 {
                assert forall|j: int| 0 <= j < i implies self@[j].0 != id.index by {
                    assert(self@[j].0 == old_s[j].0);
                }
                crate::vec_map::lemma_find_first(self@, id.index, i);
            }
        }
    }

    /// Lets `dt` ticks of every sound's cooldown pass.
    pub fn update(&mut self, dt: u32)
        requires
            old(self).wf(),
        ensures
            final(self).wf(),
            final(self).spec_capacity() == old(self).spec_capacity(),
            sounds_counted_down(old(self)@, final(self)@, dt),
    {
        let n = self.sounds.len();
        let mut i: usize = 0;
        while i < n
            invariant
                self.wf(),
                self.spec_capacity() == old(self).spec_capacity(),
                n == old(self)@.len(),
                self@.len() == n,
                i <= n,
                forall|j: int| 0 <= j < n ==> (#[trigger] self@[j]).0 == old(self)@[j].0,
                forall|j: int| 0 <= j < i ==> {
                    &&& (#[trigger] self@[j]).1.spec_data() == old(self)@[j].1.spec_data()
                    &&& self@[j].1.spec_default_loop_start() == old(self)@[j].1.spec_default_loop_start()
                    &&& self@[j].1.spec_cooldown() == old(self)@[j].1.spec_cooldown()
                    &&& self@[j].1.spec_groups() == old(self)@[j].1.spec_groups()
                    &&& self@[j].1.spec_cooldown_timer() == if old(self)@[j].1.spec_cooldown_timer() > dt {
                        old(self)@[j].1.spec_cooldown_timer() - dt
                    } else {
                        0
                    }
                },
                forall|j: int| i <= j < n ==> #[trigger] self@[j] == old(self)@[j],
            decreases n - i,
        {
            let ghost before = self@;
            match self.sounds.get_index_mut(i) {
                Some(sound) => {
                    sound.update_cooldown(dt);
                },
                None => {},
            }
            proof {
                assert forall|a: int, b: int| 0 <= a < self@.len() && 0 <= b < self@.len() && a != b
                    implies #[trigger] self@[a].0 != #[trigger] self@[b].0 by {
                    assert(self@[a].0 == before[a].0 && self@[b].0 == before[b].0);
                }
            }
            i = i + 1;
        }
    }
}

impl Default for SoundSettings {
    fn default() -> (r: SoundSettings)
        ensures
            r.default_loop_start is None,
            r.cooldown is None,
    {
        SoundSettings::new()
    }
}

} // verus!
