//! The mixer: sub-tracks feeding their parents and send tracks, send tracks
//! feeding the main track, and the main track giving the output.
//!
//! A sub-track's parent is the main track or a sub-track added before it,
//! so going through the sub-tracks from the newest to the oldest handles
//! every child before its parent.
use vstd::prelude::*;
use crate::frame::{Frame, UNIT};
use crate::id::lemma_u64_keys;
use crate::instances::frame_sum;
use crate::frame::{clamp_sample, scale};
use crate::parameter::Parameters;
use crate::value::{CachedValue, Value};
use crate::vec_map::{find_key, keys_unique, lemma_find_key, without_key, VecMap};

verus! {

/// A unique identifier for a sub-track.
#[derive(Debug, Clone, Copy, PartialEq, Eq, Hash, Structural)]
pub struct SubTrackId {
    pub index: u64,
}

/// A unique identifier for a send track.
#[derive(Debug, Clone, Copy, PartialEq, Eq, Hash, Structural)]
pub struct SendTrackId {
    pub index: u64,
}

/// Where an instance's output goes.
#[derive(Debug, Clone, Copy, PartialEq, Eq, Structural)]
pub enum TrackIndex {
    Main,
    Sub(SubTrackId),
}

/// `f` scaled by the fixed-point `gain`, as [`Frame::scaled`] does.
pub open spec fn scale_frame(f: Frame, gain: int) -> Frame {
    Frame { left: clamp_sample(scale(f.left as int, gain)) as i32, right: clamp_sample(scale(f.right as int, gain)) as i32 }
}

/// A sub-track: its volume, its parent (none for the main track), its sends
/// with their levels, and the input gathered this tick.
pub struct SubTrack {
    volume: CachedValue,
    parent: Option<u64>,
    sends: Vec<(u64, CachedValue)>,
    input: Frame,
}

impl SubTrack {
    pub closed spec fn spec_volume(&self) -> CachedValue {
        self.volume
    }

    pub closed spec fn spec_parent(&self) -> Option<u64> {
        self.parent
    }

    pub closed spec fn spec_sends(&self) -> Seq<(u64, CachedValue)> {
        self.sends@
    }

    pub closed spec fn spec_input(&self) -> Frame {
        self.input
    }

    /// The same track with the given input.
    pub closed spec fn with_input(self, input: Frame) -> SubTrack {
        SubTrack { input, ..self }
    }

    /// A track at `volume`, feeding `parent` and the given sends.
    pub fn new(volume: Value, parent: TrackIndex, sends: &Vec<(SendTrackId, Value)>) -> (r: SubTrack)
        ensures
            r.spec_volume().spec_setting() == volume,
            r.spec_parent() == match parent {
                TrackIndex::Main => None,
                TrackIndex::Sub(id) => Some(id.index),
            },
            r.spec_sends().len() == sends@.len(),
            forall|i: int| 0 <= i < sends@.len() ==> (#[trigger] r.spec_sends()[i]).0 == sends@[i].0.index
                && r.spec_sends()[i].1.spec_setting() == sends@[i].1,
            r.spec_input() == Frame::spec_silent(),
    {
        let mut levels: Vec<(u64, CachedValue)> = Vec::new();
        let mut i: usize = 0;
        while i < sends.len()
            invariant
                i <= sends@.len(),
                levels@.len() == i,
                forall|j: int| 0 <= j < i ==> (#[trigger] levels@[j]).0 == sends@[j].0.index
                    && levels@[j].1.spec_setting() == sends@[j].1,
            decreases sends@.len() - i,
        {
            let (id, level) = sends[i];
            levels.push((id.index, CachedValue::new(level, UNIT)));
            i = i + 1;
        }
        SubTrack {
            volume: CachedValue::new(volume, UNIT),
            parent: match parent {
                TrackIndex::Main => None,
                TrackIndex::Sub(id) => Some(id.index),
            },
            sends: levels,
            input: Frame { left: 0, right: 0 },
        }
    }
}

/// A send track: its volume and the input gathered this tick.
pub struct SendTrack {
    volume: CachedValue,
    input: Frame,
}

impl SendTrack {
    pub closed spec fn spec_volume(&self) -> CachedValue {
        self.volume
    }

    pub closed spec fn spec_input(&self) -> Frame {
        self.input
    }

    /// The same track with the given input.
    pub closed spec fn with_input(self, input: Frame) -> SendTrack {
        SendTrack { input, ..self }
    }

    /// A track at `volume`.
    pub fn new(volume: Value) -> (r: SendTrack)
        ensures
            r.spec_volume().spec_setting() == volume,
            r.spec_input() == Frame::spec_silent(),
    {
        SendTrack { volume: CachedValue::new(volume, UNIT), input: Frame { left: 0, right: 0 } }
    }
}

/// The send tracks `sends` once `f` has been added to the input of the
/// track `id` (unchanged when there is none).
pub open spec fn add_to_send(sends: Seq<(u64, SendTrack)>, id: u64, f: Frame) -> Seq<(u64, SendTrack)> {
    let i = find_key(sends, id);
    if i >= 0 {
        sends.update(i, (id, sends[i].1.with_input(frame_sum(sends[i].1.spec_input(), f))))
    } else {
        sends
    }
}

/// The send tracks once `out` has gone through the first `n` sends of
/// `levels`, each at its level.
pub open spec fn send_out(sends: Seq<(u64, SendTrack)>, levels: Seq<(u64, CachedValue)>, out: Frame, n: nat) -> Seq<(u64, SendTrack)>
    decreases n,
{
    if n == 0 || n > levels.len() {
        sends
    } else {
        let before = send_out(sends, levels, out, (n - 1) as nat);
        add_to_send(before, levels[n - 1].0, scale_frame(out, levels[n - 1].1.spec_value()))
    }
}

/// The state the mixer routes: sub-tracks, send tracks, and the main input.
pub type MixModel = (Seq<(u64, SubTrack)>, Seq<(u64, SendTrack)>, Frame);

/// The model once the sub-track at index `k` has passed its input, at its
/// volume, to its parent and its sends, and been cleared.
pub open spec fn route_sub(m: MixModel, k: int) -> MixModel {
    let (subs, sends, main) = m;
    let t = subs[k].1;
    let out = scale_frame(t.spec_input(), t.spec_volume().spec_value());
    let cleared = subs.update(k, (subs[k].0, t.with_input(Frame::spec_silent())));
    let sends2 = send_out(sends, t.spec_sends(), out, t.spec_sends().len());
    match t.spec_parent() {
        None => (cleared, sends2, frame_sum(main, out)),
        Some(p) => {
            let j = find_key(cleared, p);
            if j >= 0 {
                (cleared.update(j, (p, cleared[j].1.with_input(frame_sum(cleared[j].1.spec_input(), out)))), sends2, main)
            } else {
                (cleared, sends2, main)
            }
        },
    }
}

/// The model once the sub-tracks below index `k` have been routed, newest first.
pub open spec fn route_subs(m: MixModel, k: nat) -> MixModel
    decreases k,
{
    if k == 0 || k > m.0.len() {
        m
    } else {
        route_subs(route_sub(m, k - 1), (k - 1) as nat)
    }
}

/// The model once the first `n` send tracks have passed their input, at their
/// volume, to the main track and been cleared.
pub open spec fn route_sends(m: MixModel, n: nat) -> MixModel
    decreases n,
{
    if n == 0 || n > m.1.len() {
        m
    } else {
        let before = route_sends(m, (n - 1) as nat);
        let t = before.1[n - 1].1;
        let out = scale_frame(t.spec_input(), t.spec_volume().spec_value());
        (before.0, before.1.update(n - 1, (before.1[n - 1].0, t.with_input(Frame::spec_silent()))), frame_sum(before.2, out))
    }
}

/// The model once `f` has been added to the input of `track`; a sub-track
/// that does not exist takes nothing.
pub open spec fn input_added(m: MixModel, track: TrackIndex, f: Frame) -> MixModel {
    let (subs, sends, main) = m;
    match track {
        TrackIndex::Main => (subs, sends, frame_sum(main, f)),
        TrackIndex::Sub(id) => {
            let j = find_key(subs, id.index);
            if j >= 0 {
                (subs.update(j, (id.index, subs[j].1.with_input(frame_sum(subs[j].1.spec_input(), f)))), sends, main)
            } else {
                (subs, sends, main)
            }
        },
    }
}

/// The frame a mixer in model `m` gives with the main track at `main_gain`.
pub open spec fn mixer_output(m: MixModel, main_gain: int) -> Frame {
    let m1 = route_subs(m, m.0.len());
    let m2 = route_sends(m1, m1.1.len());
    scale_frame(m2.2, main_gain)
}

/// Whether `new` is the sub-track `old` with its volume and send levels
/// refreshed from `parameters`, all else kept.
pub open spec fn sub_refreshed(old: SubTrack, new: SubTrack, parameters: &Parameters) -> bool {
    &&& new.spec_input() == old.spec_input()
    &&& new.spec_parent() == old.spec_parent()
    &&& new.spec_volume() == old.spec_volume().spec_refreshed(parameters)
    &&& new.spec_sends().len() == old.spec_sends().len()
    &&& forall|s: int| 0 <= s < old.spec_sends().len() ==> #[trigger] new.spec_sends()[s] == (
        old.spec_sends()[s].0,
        old.spec_sends()[s].1.spec_refreshed(parameters),
    )
}

/// Whether `new` is the send track `old` with its volume refreshed from
/// `parameters`, all else kept.
pub open spec fn send_refreshed(old: SendTrack, new: SendTrack, parameters: &Parameters) -> bool {
    &&& new.spec_input() == old.spec_input()
    &&& new.spec_volume() == old.spec_volume().spec_refreshed(parameters)
}

/// Whether `new` is the mixer `old` with every volume and send level
/// refreshed from `parameters`, all else kept.
pub open spec fn mixer_refreshed(old: Mixer, new: Mixer, parameters: &Parameters) -> bool {
    &&& new.spec_capacities() == old.spec_capacities()
    &&& new.spec_main_volume() == old.spec_main_volume().spec_refreshed(parameters)
    &&& new.spec_model().2 == old.spec_model().2
    &&& new.spec_model().0.len() == old.spec_model().0.len()
    &&& new.spec_model().1.len() == old.spec_model().1.len()
    &&& forall|j: int| 0 <= j < old.spec_model().0.len() ==> {
        &&& (#[trigger] new.spec_model().0[j]).0 == old.spec_model().0[j].0
        &&& sub_refreshed(old.spec_model().0[j].1, new.spec_model().0[j].1, parameters)
    }
    &&& forall|j: int| 0 <= j < old.spec_model().1.len() ==> {
        &&& (#[trigger] new.spec_model().1[j]).0 == old.spec_model().1[j].0
        &&& send_refreshed(old.spec_model().1[j].1, new.spec_model().1[j].1, parameters)
    }
}

/// The tracks of the mixer.
pub struct Mixer {
    main_volume: CachedValue,
    main_input: Frame,
    subs: VecMap<u64, SubTrack>,
    sends: VecMap<u64, SendTrack>,
}

impl Mixer {
    /// The sub-tracks, send tracks and main input.
    pub closed spec fn spec_model(&self) -> MixModel {
        (self.subs@, self.sends@, self.main_input)
    }

    /// The main track's volume.
    pub closed spec fn spec_main_volume(&self) -> CachedValue {
        self.main_volume
    }

    /// The most sub-tracks and send tracks the mixer holds.
    pub closed spec fn spec_capacities(&self) -> (nat, nat) {
        (self.subs.spec_capacity(), self.sends.spec_capacity())
    }

    /// Both registries fit their capacities and have unique identifiers.
    pub closed spec fn wf(&self) -> bool {
        &&& self.subs.wf()
        &&& self.sends.wf()
    }

    /// A mixer with only the main track, at full volume.
    pub fn new(num_sub_tracks: usize, num_send_tracks: usize) -> (r: Mixer)
        ensures
            r.wf(),
            r.spec_model() == (Seq::<(u64, SubTrack)>::empty(), Seq::<(u64, SendTrack)>::empty(), Frame::spec_silent()),
            r.spec_main_volume().spec_setting() == Value::Fixed(UNIT),
            r.spec_capacities() == (num_sub_tracks as nat, num_send_tracks as nat),
    {
        Mixer {
            main_volume: CachedValue::new(Value::Fixed(UNIT), UNIT),
            main_input: Frame { left: 0, right: 0 },
            subs: VecMap::new(num_sub_tracks),
            sends: VecMap::new(num_send_tracks),
        }
    }

    /// Adds `f` to the input of `track`; a sub-track that does not exist
    /// takes nothing.
    pub fn add_input(&mut self, track: TrackIndex, f: Frame)
        requires
            old(self).wf(),
        ensures
            final(self).wf(),
            final(self).spec_main_volume() == old(self).spec_main_volume(),
            final(self).spec_capacities() == old(self).spec_capacities(),
            final(self).spec_model() == input_added(old(self).spec_model(), track, f),
    {
        match track {
            TrackIndex::Main => {
                self.main_input = self.main_input.add(f);
            },
            TrackIndex::Sub(id) => {
                proof {
                    lemma_u64_keys();
                    lemma_find_key(self.subs@, id.index);
                }
                let ghost s0 = self.subs@;
                match self.subs.get_mut(&id.index) {
                    Some(t) => {
                        t.input = t.input.add(f);
                    },
                    None => {},
                }
                proof {
                    assert forall|a: int, b: int| 0 <= a < self.subs@.len() && 0 <= b < self.subs@.len() && a != b
                        implies #[trigger] self.subs@[a].0 != #[trigger] self.subs@[b].0 by {
                        assert(self.subs@[a].0 == s0[a].0 && self.subs@[b].0 == s0[b].0);
                    }
                }
            },
        }
    }

    /// Adds `track` under `id`, unless its parent is a sub-track that does not
    /// exist or the mixer is full; a refused or replaced track is handed back.
    pub fn add_sub_track(&mut self, id: SubTrackId, track: SubTrack) -> (r: Option<SubTrack>)
        requires
            old(self).wf(),
        ensures
            final(self).wf(),
            final(self).spec_main_volume() == old(self).spec_main_volume(),
            final(self).spec_capacities() == old(self).spec_capacities(),
            final(self).spec_model().1 == old(self).spec_model().1,
            final(self).spec_model().2 == old(self).spec_model().2,
            (track.spec_parent() matches Some(p) && find_key(old(self).spec_model().0, p) == -1)
                ==> final(self).spec_model() == old(self).spec_model() && r == Some(track),
            !(track.spec_parent() matches Some(p) && find_key(old(self).spec_model().0, p) == -1) ==> {
                let rest = without_key(old(self).spec_model().0, id.index);
                &&& rest.len() < old(self).spec_capacities().0 ==> final(self).spec_model().0 == rest.push((id.index, track))
                &&& rest.len() >= old(self).spec_capacities().0 ==> final(self).spec_model().0 == rest && r == Some(track)
            },
    {
        proof {
            lemma_u64_keys();
        }
        match track.parent {
            Some(p) => {
                proof {
                    lemma_find_key(self.subs@, p);
                }
                if self.subs.get(&p).is_none() {
                    return Some(track);
                }
            },
            None => {},
        }
        match self.subs.insert(id.index, track) {
            Ok(previous) => previous,
            Err(track) => Some(track),
        }
    }

    /// Removes the sub-track `id` and hands it back, if it exists.
    pub fn remove_sub_track(&mut self, id: SubTrackId) -> (r: Option<SubTrack>)
        requires
            old(self).wf(),
        ensures
            final(self).wf(),
            final(self).spec_model().0 == without_key(old(self).spec_model().0, id.index),
            final(self).spec_main_volume() == old(self).spec_main_volume(),
            final(self).spec_capacities() == old(self).spec_capacities(),
            final(self).spec_model().1 == old(self).spec_model().1,
            final(self).spec_model().2 == old(self).spec_model().2,
    {
        proof {
            lemma_u64_keys();
        }
        self.subs.remove(&id.index)
    }

    /// Adds a send track under `id`; a refused or replaced track is handed back.
    pub fn add_send_track(&mut self, id: SendTrackId, track: SendTrack) -> (r: Option<SendTrack>)
        requires
            old(self).wf(),
        ensures
            final(self).wf(),
            ({
                let rest = without_key(old(self).spec_model().1, id.index);
                &&& rest.len() < old(self).spec_capacities().1 ==> final(self).spec_model().1 == rest.push((id.index, track))
                &&& rest.len() >= old(self).spec_capacities().1 ==> final(self).spec_model().1 == rest && r == Some(track)
            }),
            final(self).spec_main_volume() == old(self).spec_main_volume(),
            final(self).spec_capacities() == old(self).spec_capacities(),
            final(self).spec_model().0 == old(self).spec_model().0,
            final(self).spec_model().2 == old(self).spec_model().2,
    {
        proof {
            lemma_u64_keys();
        }
        match self.sends.insert(id.index, track) {
            Ok(previous) => previous,
            Err(track) => Some(track),
        }
    }

    /// Removes the send track `id` and hands it back, if it exists.
    pub fn remove_send_track(&mut self, id: SendTrackId) -> (r: Option<SendTrack>)
        requires
            old(self).wf(),
        ensures
            final(self).wf(),
            final(self).spec_model().1 == without_key(old(self).spec_model().1, id.index),
            final(self).spec_main_volume() == old(self).spec_main_volume(),
            final(self).spec_capacities() == old(self).spec_capacities(),
            final(self).spec_model().0 == old(self).spec_model().0,
            final(self).spec_model().2 == old(self).spec_model().2,
    {
        proof {
            lemma_u64_keys();
        }
        self.sends.remove(&id.index)
    }

    fn add_to_send_exec(&mut self, id: u64, f: Frame)
        requires
            old(self).wf(),
        ensures
            final(self).wf(),
            final(self).spec_main_volume() == old(self).spec_main_volume(),
            final(self).spec_capacities() == old(self).spec_capacities(),
            final(self).spec_model() == (
                old(self).spec_model().0,
                add_to_send(old(self).spec_model().1, id, f),
                old(self).spec_model().2,
            ),
    {
        proof {
            lemma_u64_keys();
            lemma_find_key(self.sends@, id);
        }
        let ghost s0 = self.sends@;
        match self.sends.get_mut(&id) {
            Some(t) => {
                t.input = t.input.add(f);
            },
            None => {},
        }
        proof {
            assert forall|a: int, b: int| 0 <= a < self.sends@.len() && 0 <= b < self.sends@.len() && a != b
                implies #[trigger] self.sends@[a].0 != #[trigger] self.sends@[b].0 by {
                assert(self.sends@[a].0 == s0[a].0 && self.sends@[b].0 == s0[b].0);
            }
        }
    }

    fn route_sub_exec(&mut self, k: usize)
        requires
            old(self).wf(),
            k < old(self).spec_model().0.len(),
        ensures
            final(self).wf(),
            final(self).spec_main_volume() == old(self).spec_main_volume(),
            final(self).spec_capacities() == old(self).spec_capacities(),
            final(self).spec_model() == route_sub(old(self).spec_model(), k as int),
            final(self).spec_model().0.len() == old(self).spec_model().0.len(),
    {
        let ghost m0 = self.spec_model();
        let (out, parent) = match self.subs.get_index(k) {
            Some(t) => (t.input.scaled(t.volume.value()), t.parent),
            None => (Frame { left: 0, right: 0 }, None),
        };
        let ghost t0 = m0.0[k as int].1;
        let ghost s1 = self.subs@;
        match self.subs.get_index_mut(k) {
            Some(t) => {
                t.input = Frame { left: 0, right: 0 };
            },
            None => {},
        }
        proof {
            assert forall|a: int, b: int| 0 <= a < self.subs@.len() && 0 <= b < self.subs@.len() && a != b
                implies #[trigger] self.subs@[a].0 != #[trigger] self.subs@[b].0 by {
                assert(self.subs@[a].0 == s1[a].0 && self.subs@[b].0 == s1[b].0);
            }
            assert(self.subs@ == m0.0.update(k as int, (m0.0[k as int].0, t0.with_input(Frame::spec_silent()))));
        }
        let n = match self.subs.get_index(k) {
            Some(t) => t.sends.len(),
            None => 0,
        };
        let mut s: usize = 0;
        while s < n
            invariant
                self.wf(),
                self.spec_main_volume() == old(self).spec_main_volume(),
                self.spec_capacities() == old(self).spec_capacities(),
                k < self.subs@.len(),
                k < m0.0.len(),
                t0 == m0.0[k as int].1,
                self.subs@ == m0.0.update(k as int, (m0.0[k as int].0, t0.with_input(Frame::spec_silent()))),
                self.main_input == m0.2,
                n == t0.spec_sends().len(),
                s <= n,
                self.sends@ == send_out(m0.1, t0.spec_sends(), out, s as nat),
                out == scale_frame(t0.spec_input(), t0.spec_volume().spec_value()),
            decreases n - s,
        {
            proof {
                assert(self.subs@[k as int].1 == t0.with_input(Frame::spec_silent()));
                assert(self.subs@[k as int].1.sends@ == t0.sends@);
            }
            let (sid, gain) = match self.subs.get_index(k) {
                Some(t) => (t.sends[s].0, t.sends[s].1.value()),
                None => (0, 0),
            };
            self.add_to_send_exec(sid, out.scaled(gain));
            s = s + 1;
        }
        match parent {
            None => {
                self.main_input = self.main_input.add(out);
            },
            Some(p) => {
                proof {
                    lemma_u64_keys();
                    lemma_find_key(self.subs@, p);
                }
                let ghost s2 = self.subs@;
                match self.subs.get_mut(&p) {
                    Some(t) => {
                        t.input = t.input.add(out);
                    },
                    None => {},
                }
                proof {
                    assert forall|a: int, b: int| 0 <= a < self.subs@.len() && 0 <= b < self.subs@.len() && a != b
                        implies #[trigger] self.subs@[a].0 != #[trigger] self.subs@[b].0 by {
                        assert(self.subs@[a].0 == s2[a].0 && self.subs@[b].0 == s2[b].0);
                    }
                }
            },
        }
    }

    /// Routes one tick of audio: each sub-track from the newest to the oldest
    /// passes its input, at its volume, to its parent and (at each send's
    /// level) to its send tracks; each send track passes its input, at its
    /// volume, to the main track; the output is the main input at the main
    /// volume. Every input is cleared.
    pub fn route(&mut self) -> (r: Frame)
        requires
            old(self).wf(),
        ensures
            final(self).wf(),
            final(self).spec_main_volume() == old(self).spec_main_volume(),
            final(self).spec_capacities() == old(self).spec_capacities(),
            r == mixer_output(old(self).spec_model(), old(self).spec_main_volume().spec_value()),
            ({
                let m1 = route_subs(old(self).spec_model(), old(self).spec_model().0.len());
                let m2 = route_sends(m1, m1.1.len());
                final(self).spec_model() == (m2.0, m2.1, Frame::spec_silent())
            }),
    {
        let ghost m0 = self.spec_model();
        let n = self.subs.len();
        let mut k: usize = n;
        while k > 0
            invariant
                self.wf(),
                self.spec_main_volume() == old(self).spec_main_volume(),
                self.spec_capacities() == old(self).spec_capacities(),
                self.spec_model().0.len() == n,
                n == m0.0.len(),
                k <= n,
                route_subs(self.spec_model(), k as nat) == route_subs(m0, n as nat),
            decreases k,
        {
            self.route_sub_exec(k - 1);
            k = k - 1;
        }
        let ghost m1 = self.spec_model();
        proof {
            assert(route_subs(m1, 0) == m1);
        }
        let sn = self.sends.len();
        let mut j: usize = 0;
        while j < sn
            invariant
                self.wf(),
                self.spec_main_volume() == old(self).spec_main_volume(),
                self.spec_capacities() == old(self).spec_capacities(),
                m1 == route_subs(m0, n as nat),
                sn == m1.1.len(),
                j <= sn,
                self.spec_model() == route_sends(m1, j as nat),
                self.sends@.len() == sn,
            decreases sn - j,
        {
            let ghost before = self.sends@;
            let out = match self.sends.get_index_mut(j) {
                Some(t) => {
                    let out = t.input.scaled(t.volume.value());
                    t.input = Frame { left: 0, right: 0 };
                    out
                },
                None => Frame { left: 0, right: 0 },
            };
            self.main_input = self.main_input.add(out);
            proof {
                assert forall|a: int, b: int| 0 <= a < self.sends@.len() && 0 <= b < self.sends@.len() && a != b
                    implies #[trigger] self.sends@[a].0 != #[trigger] self.sends@[b].0 by {
                    assert(self.sends@[a].0 == before[a].0 && self.sends@[b].0 == before[b].0);
                }
            }
            j = j + 1;
        }
        let out = self.main_input.scaled(self.main_volume.value());
        self.main_input = Frame { left: 0, right: 0 };
        out
    }

    /// Refreshes every volume and send level from `parameters`; the tracks
    /// and their inputs stay as they are.
    pub fn update_volumes(&mut self, parameters: &Parameters)
        requires
            old(self).wf(),
        ensures
            final(self).wf(),
            mixer_refreshed(*old(self), *final(self), parameters),
    {
        self.main_volume.update(parameters);
        let n = self.subs.len();
        let mut k: usize = 0;
        while k < n
            invariant
                self.wf(),
                self.spec_capacities() == old(self).spec_capacities(),
                self.main_volume.spec_setting() == old(self).main_volume.spec_setting(),
                self.main_input == old(self).main_input,
                self.sends@ == old(self).sends@,
                n == old(self).subs@.len(),
                self.subs@.len() == n,
                k <= n,
                self.main_volume == old(self).main_volume.spec_refreshed(parameters),
                forall|j: int| 0 <= j < n ==> (#[trigger] self.subs@[j]).0 == old(self).subs@[j].0,
                forall|j: int| 0 <= j < k ==> sub_refreshed(old(self).subs@[j].1, #[trigger] self.subs@[j].1, parameters),
                forall|j: int| k <= j < n ==> #[trigger] self.subs@[j] == old(self).subs@[j],
            decreases n - k,
        {
            let ghost before = self.subs@;
            match self.subs.get_index_mut(k) {
                Some(t) => {
                    let ghost t0 = *t;
                    t.volume.update(parameters);
                    let m = t.sends.len();
                    let mut s: usize = 0;
                    while s < m
                        invariant
                            s <= m,
                            m == t.sends@.len(),
                            m == t0.sends@.len(),
                            t.input == t0.input,
                            t.parent == t0.parent,
                            t.volume == t0.volume.spec_refreshed(parameters),
                            forall|q: int| 0 <= q < s ==> #[trigger] t.sends@[q] == (
                                t0.sends@[q].0,
                                t0.sends@[q].1.spec_refreshed(parameters),
                            ),
                            forall|q: int| s <= q < m ==> #[trigger] t.sends@[q] == t0.sends@[q],
                        decreases m - s,
                    {
                        t.sends[s].1.update(parameters);
                        s = s + 1;
                    }
                },
                None => {},
            }
            proof {
                assert forall|a: int, b: int| 0 <= a < self.subs@.len() && 0 <= b < self.subs@.len() && a != b
                    implies #[trigger] self.subs@[a].0 != #[trigger] self.subs@[b].0 by {
                    assert(self.subs@[a].0 == before[a].0 && self.subs@[b].0 == before[b].0);
                }
            }
            k = k + 1;
        }
        let sn = self.sends.len();
        let mut j: usize = 0;
        while j < sn
            invariant
                self.wf(),
                self.spec_capacities() == old(self).spec_capacities(),
                self.main_volume.spec_setting() == old(self).main_volume.spec_setting(),
                self.main_input == old(self).main_input,
                self.main_volume == old(self).main_volume.spec_refreshed(parameters),
                self.subs@.len() == old(self).subs@.len(),
                forall|i: int| 0 <= i < old(self).subs@.len() ==> (#[trigger] self.subs@[i]).0 == old(self).subs@[i].0
                    && sub_refreshed(old(self).subs@[i].1, self.subs@[i].1, parameters),
                sn == old(self).sends@.len(),
                self.sends@.len() == sn,
                j <= sn,
                forall|i: int| 0 <= i < sn ==> (#[trigger] self.sends@[i]).0 == old(self).sends@[i].0,
                forall|i: int| 0 <= i < j ==> send_refreshed(old(self).sends@[i].1, #[trigger] self.sends@[i].1, parameters),
                forall|i: int| j <= i < sn ==> #[trigger] self.sends@[i] == old(self).sends@[i],
            decreases sn - j,
        {
            let ghost before = self.sends@;
            match self.sends.get_index_mut(j) {
                Some(t) => {
                    t.volume.update(parameters);
                },
                None => {},
            }
            proof {
                assert forall|a: int, b: int| 0 <= a < self.sends@.len() && 0 <= b < self.sends@.len() && a != b
                    implies #[trigger] self.sends@[a].0 != #[trigger] self.sends@[b].0 by {
                    assert(self.sends@[a].0 == before[a].0 && self.sends@[b].0 == before[b].0);
                }
            }
            j = j + 1;
        }
    }
}

} // verus!
