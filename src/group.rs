//! Groups: named tag sets over sounds, arranged under parent groups, for
//! controlling many instances at once.
use vstd::prelude::*;
use crate::id::lemma_u64_keys;
use crate::vec_map::{find_key, keys_unique, lemma_find_key, without_key, VecMap};

verus! {

/// A unique identifier for a group.
#[derive(Debug, Clone, Copy, PartialEq, Eq, Hash, Structural)]
pub struct GroupId {
    pub index: u64,
}

impl GroupId {
    /// The identifier with the given counter value.
    pub fn new(index: u64) -> (r: GroupId)
        ensures
            r.index == index,
    {
        GroupId { index }
    }
}

/// A group: the groups it belongs to in turn.
pub struct Group {
    parent_groups: Vec<u64>,
}

impl Group {
    /// The indices of the parent groups.
    pub closed spec fn spec_parents(&self) -> Seq<u64> {
        self.parent_groups@
    }

    /// A group under the given parent groups.
    pub fn new(parent_groups: &Vec<GroupId>) -> (r: Group)
        ensures
            r.spec_parents().len() == parent_groups@.len(),
            forall|i: int| 0 <= i < parent_groups@.len() ==> #[trigger] r.spec_parents()[i] == parent_groups@[i].index,
    {
        let mut parents: Vec<u64> = Vec::new();
        let mut i: usize = 0;
        while i < parent_groups.len()
            invariant
                i <= parent_groups@.len(),
                parents@.len() == i,
                forall|j: int| 0 <= j < i ==> #[trigger] parents@[j] == parent_groups@[j].index,
            decreases parent_groups@.len() - i,
        {
            parents.push(parent_groups[i].index);
            i = i + 1;
        }
        Group { parent_groups: parents }
    }
}

/// The parents of group `x` in the registry `gs`; none when `x` is not registered.
pub open spec fn parents_of(gs: Seq<(u64, Group)>, x: u64) -> Seq<u64> {
    let i = find_key(gs, x);
    if i >= 0 { gs[i].1.spec_parents() } else { Seq::empty() }
}

/// Whether `g` is `x` or can be reached from `x` by going to a parent at
/// most `steps` times.
pub open spec fn within(gs: Seq<(u64, Group)>, x: u64, g: u64, steps: nat) -> bool
    decreases steps, 0nat,
{
    x == g || (steps > 0 && some_within(gs, parents_of(gs, x), g, (steps - 1) as nat, parents_of(gs, x).len()))
}

/// Whether `g` is reached, within `steps` parent steps, from one of the
/// first `k` groups of `ps`.
pub open spec fn some_within(gs: Seq<(u64, Group)>, ps: Seq<u64>, g: u64, steps: nat, k: nat) -> bool
    decreases steps, k,
{
    k > 0 && k <= ps.len() && (within(gs, ps[k - 1], g, steps) || some_within(gs, ps, g, steps, (k - 1) as nat))
}

/// Whether something tagged with the groups `tags` is in group `g`: `g` is
/// one of the tags or an ancestor of one, through at most as many parent
/// steps as there are groups.
pub open spec fn in_group(gs: Seq<(u64, Group)>, tags: Seq<u64>, g: u64) -> bool {
    exists|i: int| 0 <= i < tags.len() && #[trigger] within(gs, tags[i], g, gs.len())
}

/// The audio thread's groups, in the order they were added.
pub struct Groups {
    groups: VecMap<u64, Group>,
}

impl View for Groups {
    type V = Seq<(u64, Group)>;

    closed spec fn view(&self) -> Seq<(u64, Group)> {
        self.groups@
    }
}

impl Groups {
    /// The most groups the registry holds.
    pub closed spec fn spec_capacity(&self) -> nat {
        self.groups.spec_capacity()
    }

    /// The registry fits its capacity and identifiers are unique.
    pub open spec fn wf(&self) -> bool {
        &&& self@.len() <= self.spec_capacity()
        &&& keys_unique(self@)
    }

    /// An empty registry for up to `capacity` groups.
    pub fn new(capacity: usize) -> (r: Groups)
        ensures
            r@ == Seq::<(u64, Group)>::empty(),
            r.spec_capacity() == capacity,
            r.wf(),
    {
        Groups { groups: VecMap::new(capacity) }
    }

    /// Registers `group` under `id`. A group that leaves the registry
    /// (replaced, or refused because the registry is full) is handed back.
    pub fn add(&mut self, id: GroupId, group: Group) -> (r: Option<Group>)
        requires
            old(self).wf(),
        ensures
            final(self).wf(),
            final(self).spec_capacity() == old(self).spec_capacity(),
            ({
                let rest = without_key(old(self)@, id.index);
                &&& rest.len() < old(self).spec_capacity() ==> final(self)@ == rest.push((id.index, group))
                &&& rest.len() >= old(self).spec_capacity() ==> final(self)@ == rest && r == Some(group)
            }),
    {
        proof {
            lemma_u64_keys();
        }
        match self.groups.insert(id.index, group) {
            Ok(previous) => previous,
            Err(group) => Some(group),
        }
    }

    /// Unregisters the group `id` and hands it back, if it was registered.
    pub fn remove(&mut self, id: GroupId) -> (r: Option<Group>)
        requires
            old(self).wf(),
        ensures
            final(self).wf(),
            final(self).spec_capacity() == old(self).spec_capacity(),
            final(self)@ == without_key(old(self)@, id.index),
    {
        proof {
            lemma_u64_keys();
        }
        self.groups.remove(&id.index)
    }

    /// Whether `g` is `x` or reached from `x` within `steps` parent steps.
    fn within_exec(&self, x: u64, g: u64, steps: usize) -> (r: bool)
        ensures
            r == within(self@, x, g, steps as nat),
        decreases steps, 0nat,
    {
        if x == g {
            return true;
        }
        if steps == 0 {
            return false;
        }
        proof {
            lemma_u64_keys();
            lemma_find_key(self@, x);
        }
        match self.groups.get(&x) {
            Some(group) => {
                let parents = &group.parent_groups;
                assert(parents@ == parents_of(self@, x));
                self.some_within_exec(parents, g, steps - 1, parents.len())
            },
            None => {
                assert(parents_of(self@, x).len() == 0);
                false
            },
        }
    }

    /// Whether `g` is reached within `steps` parent steps from one of the
    /// first `k` groups of `ps`.
    fn some_within_exec(&self, ps: &Vec<u64>, g: u64, steps: usize, k: usize) -> (r: bool)
        requires
            k <= ps@.len(),
        ensures
            r == some_within(self@, ps@, g, steps as nat, k as nat),
        decreases steps, k,
    {
        if k == 0 {
            return false;
        }
        if self.within_exec(ps[k - 1], g, steps) {
            return true;
        }
        self.some_within_exec(ps, g, steps, k - 1)
    }

    /// Whether something tagged with the groups `tags` is in the group `g`.
    pub fn contains(&self, tags: &Vec<u64>, g: GroupId) -> (r: bool)
        ensures
            r == in_group(self@, tags@, g.index),
    {
        let steps = self.groups.len();
        let mut i: usize = 0;
        while i < tags.len()
            invariant
                i <= tags@.len(),
                steps == self@.len(),
                forall|j: int| 0 <= j < i ==> !within(self@, tags@[j], g.index, self@.len()),
            decreases tags@.len() - i,
        {
            if self.within_exec(tags[i], g.index, steps) {
                return true;
            }
            i = i + 1;
        }
        false
    }
}

} // verus!
