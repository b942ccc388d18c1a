//! The audio thread's pool of active instances.
use vstd::prelude::*;
use crate::frame::{clamp_sample, Frame};
use crate::mixer::{input_added, Mixer, MixModel};
use crate::group::{in_group, GroupId, Groups};
use crate::id::{lemma_u64_keys, InstanceId, SoundId};
use crate::instance::{commanded, instance_output, updated_by, Instance, InstanceCommand, InstanceState};
use crate::parameter::Parameters;
use crate::vec_map::{
    filter_by, find_key, has_key, kept_from, keys_unique, lemma_filter_by_members, lemma_find_key,
    lemma_without_absent, lemma_without_key_sub, without_key, VecMap,
};

verus! {

/// The channel-wise sum of two frames, limited to the range of a sample.
pub open spec fn frame_sum(a: Frame, b: Frame) -> Frame {
    Frame { left: clamp_sample(a.left + b.left) as i32, right: clamp_sample(a.right + b.right) as i32 }
}

/// The mixer model once every instance of `s`, in order, has added what it
/// contributes to the input of its track.
pub open spec fn feed(m: MixModel, s: Seq<(u64, Instance)>) -> MixModel
    decreases s.len(),
{
    if s.len() == 0 {
        m
    } else {
        input_added(feed(m, s.drop_last()), s.last().1.spec_track(), instance_output(s.last().1))
    }
}

/// Which instances of `s` are still going (have not stopped).
pub open spec fn still_going(s: Seq<(u64, Instance)>) -> Seq<bool> {
    Seq::new(s.len(), |i: int| s[i].1.spec_state() != InstanceState::Stopped)
}

/// The pool `s` of capacity `capacity` after admitting `instance` under `id`:
/// an instance already under `id` is replaced; otherwise, when the pool is
/// full, the oldest instance is evicted and exactly that one leaves. A pool
/// of capacity 0 admits nothing.
pub open spec fn pushed(s: Seq<(u64, Instance)>, capacity: nat, id: u64, instance: Instance) -> Seq<
    (u64, Instance),
> {
    if capacity == 0 {
        s
    } else if has_key(s, id) {
        without_key(s, id).push((id, instance))
    } else if s.len() < capacity {
        s.push((id, instance))
    } else {
        s.drop_first().push((id, instance))
    }
}

/// Admitting a new instance into a full pool evicts exactly one instance,
/// the oldest: every other instance stays, in order, and the new one comes
/// last.
pub proof fn full_pool_evicts_oldest(s: Seq<(u64, Instance)>, capacity: nat, id: u64, instance: Instance)
    requires
        keys_unique(s),
        s.len() == capacity,
        capacity > 0,
        !has_key(s, id),
    ensures
        ({
            let r = pushed(s, capacity, id, instance);
            &&& r.len() == s.len()
            &&& !has_key(r, s[0].0)
            &&& forall|j: int| 1 <= j < s.len() ==> r[j - 1] == #[trigger] s[j]
            &&& r.last() == (id, instance)
        }),
{
    let r = pushed(s, capacity, id, instance);
    assert(r == s.drop_first().push((id, instance)));
    if has_key(r, s[0].0) {
        let k = choose|k: int| 0 <= k < r.len() && #[trigger] r[k].0 == s[0].0;
        if k < r.len() - 1 {
            assert(r[k] == s[k + 1]);
        }
    }
}

/// Whether the pool `new` is `old` after one tick: every instance advanced
/// by `dt` ticks against `parameters`, and those that stopped left, the
/// others keeping their order.
pub open spec fn pool_ticked(old: Seq<(u64, Instance)>, new: Seq<(u64, Instance)>, dt: u32, parameters: &Parameters) -> bool {
    exists|u: Seq<(u64, Instance)>|
        {
            &&& u.len() == old.len()
            &&& forall|j: int| 0 <= j < u.len() ==> (#[trigger] u[j]).0 == old[j].0 && updated_by(
                old[j].1,
                u[j].1,
                dt,
                parameters,
            )
            &&& new == filter_by(u, still_going(u))
        }
}

/// A fixed-capacity pool of active instances, oldest first.
pub struct Instances {
    instances: VecMap<u64, Instance>,
}

impl View for Instances {
    type V = Seq<(u64, Instance)>;

    closed spec fn view(&self) -> Seq<(u64, Instance)> {
        self.instances@
    }
}

impl Instances {
    /// The most instances the pool holds.
    pub closed spec fn spec_capacity(&self) -> nat {
        self.instances.spec_capacity()
    }

    /// The pool fits its capacity, identifiers are unique, and every
    /// instance is well formed.
    pub open spec fn wf(&self) -> bool {
        &&& self@.len() <= self.spec_capacity()
        &&& keys_unique(self@)
        &&& forall|i: int| 0 <= i < self@.len() ==> #[trigger] self@[i].1.wf()
    }

    /// An empty pool for up to `capacity` instances.
    pub fn new(capacity: usize) -> (r: Instances)
        ensures
            r@ == Seq::<(u64, Instance)>::empty(),
            r.spec_capacity() == capacity,
            r.wf(),
    {
        Instances { instances: VecMap::new(capacity) }
    }

    /// The number of active instances.
    pub fn len(&self) -> (r: usize)
        ensures
            r == self@.len(),
    {
        self.instances.len()
    }

    /// The instance `id`, if it is active.
    pub fn get(&self, id: InstanceId) -> (r: Option<&Instance>)
        ensures
            find_key(self@, id.index) == -1 ==> r is None,
            find_key(self@, id.index) >= 0 ==> r == Some(&self@[find_key(self@, id.index)].1),
    {
        proof {
            lemma_u64_keys();
        }
        self.instances.get(&id.index)
    }

    /// Admits `instance` under `id`, as the newest. When the pool is full the
    /// oldest instance is evicted first, so that exactly one leaves. An
    /// instance already active under `id` is replaced. A pool of capacity 0
    /// admits nothing.
    pub fn push(&mut self, id: InstanceId, instance: Instance)
        requires
            old(self).wf(),
            instance.wf(),
        ensures
            final(self).wf(),
            final(self).spec_capacity() == old(self).spec_capacity(),
            final(self)@ == pushed(old(self)@, old(self).spec_capacity(), id.index, instance),
    {
        proof {
            lemma_u64_keys();
            lemma_find_key(self@, id.index);
        }
        let ghost s0 = self@;
        let present = self.instances.get(&id.index).is_some();
        if !present && self.instances.len() >= self.instances.capacity() && self.instances.len() > 0 {
            let _ = self.instances.remove_index(0);
            proof {
                assert(self@ =~= s0.drop_first());
                assert forall|i: int| 0 <= i < self@.len() implies #[trigger] self@[i].1.wf() by {
                    assert(self@[i] == s0[i + 1]);
                }
                assert(!has_key(self@, id.index)) by {
                    if has_key(self@, id.index) {
                        let i = choose|i: int| 0 <= i < self@.len() && #[trigger] self@[i].0 == id.index;
                        assert(self@[i] == s0[i + 1]);
                    }
                }
            }
        }
        let ghost s1 = self@;
        proof {
            lemma_find_key(s1, id.index);
            lemma_without_key_sub(s1, id.index);
            if !has_key(s1, id.index) {
                lemma_without_absent(s1, id.index);
            }
        }
        let _ = self.instances.insert(id.index, instance);
        proof {
            let rest = without_key(s1, id.index);
            assert forall|i: int| 0 <= i < self@.len() implies #[trigger] self@[i].1.wf() by {
                if i < rest.len() {
                    assert(self@[i] == rest[i]);
                    let k = choose|k: int| 0 <= k < s1.len() && #[trigger] rest[i] == s1[k];
                }
            }
        }
    }

    /// Carries out `command` on the instance `id`, if it is active.
    pub fn run_command(&mut self, id: InstanceId, command: InstanceCommand)
        requires
            old(self).wf(),
        ensures
            final(self).wf(),
            final(self).spec_capacity() == old(self).spec_capacity(),
            final(self)@.len() == old(self)@.len(),
            forall|j: int| 0 <= j < old(self)@.len() ==> {
                &&& (#[trigger] final(self)@[j]).0 == old(self)@[j].0
                &&& j != find_key(old(self)@, id.index) ==> final(self)@[j] == old(self)@[j]
                &&& j == find_key(old(self)@, id.index) ==> commanded(old(self)@[j].1, final(self)@[j].1, command)
            },
    {
        proof {
            lemma_u64_keys();
            lemma_find_key(self@, id.index);
        }
        let ghost s0 = self@;
        match self.instances.get_mut(&id.index) {
            Some(instance) => {
                instance.run_command(command);
            },
            None => {},
        }
        proof {
            assert forall|a: int, b: int| 0 <= a < self@.len() && 0 <= b < self@.len() && a != b
                implies #[trigger] self@[a].0 != #[trigger] self@[b].0 by {
                assert(self@[a].0 == s0[a].0 && self@[b].0 == s0[b].0);
            }
        }
    }

    /// Carries out `command` on every active instance of the sound `sound_id`.
    pub fn run_command_for_sound(&mut self, sound_id: SoundId, command: InstanceCommand)
        requires
            old(self).wf(),
        ensures
            final(self).wf(),
            final(self).spec_capacity() == old(self).spec_capacity(),
            final(self)@.len() == old(self)@.len(),
            forall|j: int| 0 <= j < old(self)@.len() ==> {
                &&& (#[trigger] final(self)@[j]).0 == old(self)@[j].0
                &&& old(self)@[j].1.spec_sound_id() != sound_id ==> final(self)@[j] == old(self)@[j]
                &&& old(self)@[j].1.spec_sound_id() == sound_id ==> commanded(
                    old(self)@[j].1,
                    final(self)@[j].1,
                    command,
                )
            },
    {
        let n = self.instances.len();
        let mut i: usize = 0;
        while i < n
            invariant
                self.wf(),
                self.spec_capacity() == old(self).spec_capacity(),
                n == old(self)@.len(),
                self@.len() == n,
                i <= n,
                forall|j: int| 0 <= j < n ==> (#[trigger] self@[j]).0 == old(self)@[j].0,
                forall|j: int| 0 <= j < i ==> {
                    &&& old(self)@[j].1.spec_sound_id() != sound_id ==> #[trigger] self@[j] == old(self)@[j]
                    &&& old(self)@[j].1.spec_sound_id() == sound_id ==> commanded(
                        old(self)@[j].1,
                        self@[j].1,
                        command,
                    )
                },
                forall|j: int| i <= j < n ==> #[trigger] self@[j] == old(self)@[j],
            decreases n - i,
        {
            let ghost before = self@;
            match self.instances.get_index_mut(i) {
                Some(instance) => {
                    if instance.sound_id() == sound_id {
                        instance.run_command(command);
                    }
                },
                None => {},
            }
            proof {
                assert forall|a: int, b: int| 0 <= a < self@.len() && 0 <= b < self@.len() && a != b
                    implies #[trigger] self@[a].0 != #[trigger] self@[b].0 by {
                    assert(self@[a].0 == before[a].0 && self@[b].0 == before[b].0);
                }
            }
            i = i + 1;
        }
    }

    /// Carries out `command` on every active instance whose sound is in the
    /// group `group` of `groups`.
    pub fn run_command_for_group(&mut self, groups: &Groups, group: GroupId, command: InstanceCommand)
        requires
            old(self).wf(),
        ensures
            final(self).wf(),
            final(self).spec_capacity() == old(self).spec_capacity(),
            final(self)@.len() == old(self)@.len(),
            forall|j: int| 0 <= j < old(self)@.len() ==> {
                &&& (#[trigger] final(self)@[j]).0 == old(self)@[j].0
                &&& !in_group(groups@, old(self)@[j].1.spec_groups(), group.index) ==> final(self)@[j] == old(self)@[j]
                &&& in_group(groups@, old(self)@[j].1.spec_groups(), group.index) ==> commanded(
                    old(self)@[j].1,
                    final(self)@[j].1,
                    command,
                )
            },
    {
        let n = self.instances.len();
        let mut i: usize = 0;
        while i < n
            invariant
                self.wf(),
                self.spec_capacity() == old(self).spec_capacity(),
                n == old(self)@.len(),
                self@.len() == n,
                i <= n,
                forall|j: int| 0 <= j < n ==> (#[trigger] self@[j]).0 == old(self)@[j].0,
                forall|j: int| 0 <= j < i ==> {
                    &&& !in_group(groups@, old(self)@[j].1.spec_groups(), group.index) ==> #[trigger] self@[j]
                        == old(self)@[j]
                    &&& in_group(groups@, old(self)@[j].1.spec_groups(), group.index) ==> commanded(
                        old(self)@[j].1,
                        self@[j].1,
                        command,
                    )
                },
                forall|j: int| i <= j < n ==> #[trigger] self@[j] == old(self)@[j],
            decreases n - i,
        {
            let ghost before = self@;
            match self.instances.get_index_mut(i) {
                Some(instance) => {
                    if groups.contains(instance.groups(), group) {
                        instance.run_command(command);
                    }
                },
                None => {},
            }
            proof {
                assert forall|a: int, b: int| 0 <= a < self@.len() && 0 <= b < self@.len() && a != b
                    implies #[trigger] self@[a].0 != #[trigger] self@[b].0 by {
                    assert(self@[a].0 == before[a].0 && self@[b].0 == before[b].0);
                }
            }
            i = i + 1;
        }
    }

    /// Stops at once every instance whose handle asked for a stop.
    pub fn update_from_controllers(&mut self)
        requires
            old(self).wf(),
        ensures
            final(self).wf(),
            final(self).spec_capacity() == old(self).spec_capacity(),
            final(self)@.len() == old(self)@.len(),
            forall|j: int| 0 <= j < old(self)@.len() ==> {
                &&& (#[trigger] final(self)@[j]).0 == old(self)@[j].0
                &&& final(self)@[j].1.same_voice(&old(self)@[j].1)
                &&& final(self)@[j].1.spec_position() == old(self)@[j].1.spec_position()
                &&& final(self)@[j].1.spec_state() == old(self)@[j].1.spec_state()
                    || final(self)@[j].1.spec_state() == InstanceState::Stopped
            },
    {
        let n = self.instances.len();
        let mut i: usize = 0;
        while i < n
            invariant
                self.wf(),
                self.spec_capacity() == old(self).spec_capacity(),
                n == old(self)@.len(),
                self@.len() == n,
                i <= n,
                forall|j: int| 0 <= j < n ==> (#[trigger] self@[j]).0 == old(self)@[j].0,
                forall|j: int| 0 <= j < i ==> {
                    &&& (#[trigger] self@[j]).1.same_voice(&old(self)@[j].1)
                    &&& self@[j].1.spec_position() == old(self)@[j].1.spec_position()
                    &&& self@[j].1.spec_state() == old(self)@[j].1.spec_state()
                        || self@[j].1.spec_state() == InstanceState::Stopped
                },
                forall|j: int| i <= j < n ==> #[trigger] self@[j] == old(self)@[j],
            decreases n - i,
        {
            let ghost before = self@;
            match self.instances.get_index_mut(i) {
                Some(instance) => {
                    instance.update_from_controller();
                },
                None => {},
            }
            proof {
                assert forall|a: int, b: int| 0 <= a < self@.len() && 0 <= b < self@.len() && a != b
                    implies #[trigger] self@[a].0 != #[trigger] self@[b].0 by {
                    assert(self@[a].0 == before[a].0 && self@[b].0 == before[b].0);
                }
            }
            i = i + 1;
        }
    }

    /// One tick of the pool: every instance adds what it contributes before
    /// it moves to the input of its mixer track; then every instance advances
    /// by `dt` ticks, and those that have stopped leave the pool, the others
    /// keeping their order.
    pub fn process(&mut self, dt: u32, parameters: &Parameters, mixer: &mut Mixer)
        requires
            old(self).wf(),
            old(mixer).wf(),
        ensures
            final(self).wf(),
            final(self).spec_capacity() == old(self).spec_capacity(),
            final(mixer).wf(),
            final(mixer).spec_model() == feed(old(mixer).spec_model(), old(self)@),
            final(mixer).spec_main_volume() == old(mixer).spec_main_volume(),
            final(mixer).spec_capacities() == old(mixer).spec_capacities(),
            forall|j: int| 0 <= j < final(self)@.len() ==> (#[trigger] final(self)@[j]).1.spec_state()
                != InstanceState::Stopped,
            pool_ticked(old(self)@, final(self)@, dt, parameters),
    {
        let n = self.instances.len();
        let mut i: usize = 0;
        while i < n
            invariant
                self.wf(),
                self.spec_capacity() == old(self).spec_capacity(),
                n == old(self)@.len(),
                self@.len() == n,
                i <= n,
                mixer.wf(),
                mixer.spec_model() == feed(old(mixer).spec_model(), old(self)@.subrange(0, i as int)),
                mixer.spec_main_volume() == old(mixer).spec_main_volume(),
                mixer.spec_capacities() == old(mixer).spec_capacities(),
                forall|j: int| 0 <= j < n ==> (#[trigger] self@[j]).0 == old(self)@[j].0,
                forall|j: int| 0 <= j < i ==> updated_by(old(self)@[j].1, (#[trigger] self@[j]).1, dt, parameters),
                forall|j: int| i <= j < n ==> #[trigger] self@[j] == old(self)@[j],
            decreases n - i,
        {
            let ghost before = self@;
            proof {
                let sub = old(self)@.subrange(0, i + 1);
                assert(sub.drop_last() =~= old(self)@.subrange(0, i as int));
                assert(sub.last() == old(self)@[i as int]);
            }
            match self.instances.get_index_mut(i) {
                Some(instance) => {
                    let sample = instance.get_sample();
                    mixer.add_input(instance.track(), sample);
                    instance.update(dt, parameters);
                },
                None => {},
            }
            proof {
                assert forall|a: int, b: int| 0 <= a < self@.len() && 0 <= b < self@.len() && a != b
                    implies #[trigger] self@[a].0 != #[trigger] self@[b].0 by {
                    assert(self@[a].0 == before[a].0 && self@[b].0 == before[b].0);
                }
            }
            i = i + 1;
        }
        proof {
            assert(old(self)@.subrange(0, n as int) =~= old(self)@);
        }
        let ghost u = self@;
        self.instances.retain(|instance: &Instance| -> (keep: bool)
            ensures
                keep == (instance.spec_state() != InstanceState::Stopped),
            { !instance.finished() });
        proof {
            let keep = choose|keep: Seq<bool>|
                {
                    &&& keep.len() == u.len()
                    &&& forall|i: int| 0 <= i < keep.len() ==> #[trigger] keep[i] == (u[i].1.spec_state() != InstanceState::Stopped)
                    &&& self@ == filter_by(u, keep)
                };
            assert(keep =~= still_going(u));
            lemma_filter_by_members(u, keep);
            assert forall|j: int| 0 <= j < self@.len() implies (#[trigger] self@[j]).1.spec_state()
                != InstanceState::Stopped && self@[j].1.wf() by {
                assert(kept_from(u, keep, self@[j]));
            }
        }
    }
}

} // verus!
