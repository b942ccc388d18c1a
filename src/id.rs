//! Identifiers of the engine's long-lived entities.
//!
//! Identifiers are drawn from an [`IdGenerator`] owned by whoever creates the
//! entities; each counter only grows, so an identifier is never handed out
//! twice by one generator.
use vstd::prelude::*;
use vstd::laws_eq::obeys_concrete_eq;
use crate::group::GroupId;
use crate::metronome::MetronomeId;

verus! {

/// A unique identifier for a sound.
#[derive(Debug, Clone, Copy, PartialEq, Eq, Hash, Structural)]
pub struct SoundId {
    pub index: u64,
}

/// A unique identifier for an instance of a sound.
#[derive(Debug, Clone, Copy, PartialEq, Eq, Hash, Structural)]
pub struct InstanceId {
    pub index: u64,
}

/// A unique identifier for a parameter.
#[derive(Debug, Clone, Copy, PartialEq, Eq, Hash, Structural)]
pub struct ParameterId {
    pub index: u64,
}

impl SoundId {
    /// The identifier with the given counter value.
    pub fn new(index: u64) -> (r: Self)
        ensures
            r.index == index,
    {
        SoundId { index }
    }
}

impl InstanceId {
    /// The identifier with the given counter value.
    pub fn new(index: u64) -> (r: Self)
        ensures
            r.index == index,
    {
        InstanceId { index }
    }
}

impl ParameterId {
    /// The identifier with the given counter value.
    pub fn new(index: u64) -> (r: Self)
        ensures
            r.index == index,
    {
        ParameterId { index }
    }
}

/// Comparing `u64` keys with `==` is comparing them as values.
pub proof fn lemma_u64_keys()
    ensures
        obeys_concrete_eq::<u64>(),
{
    broadcast use vstd::laws_eq::group_laws_eq;
}

/// Hands out fresh identifiers from monotonic counters.
pub struct IdGenerator {
    next_sound: u64,
    next_instance: u64,
    next_parameter: u64,
    next_group: u64,
    next_metronome: u64,
}

impl IdGenerator {
    /// The next sound counter value.
    pub closed spec fn spec_next_sound(&self) -> u64 {
        self.next_sound
    }

    /// The next instance counter value.
    pub closed spec fn spec_next_instance(&self) -> u64 {
        self.next_instance
    }

    /// The next parameter counter value.
    pub closed spec fn spec_next_parameter(&self) -> u64 {
        self.next_parameter
    }

    /// The next group counter value.
    pub closed spec fn spec_next_group(&self) -> u64 {
        self.next_group
    }

    /// The next metronome counter value.
    pub closed spec fn spec_next_metronome(&self) -> u64 {
        self.next_metronome
    }

    /// A generator whose counters all start at zero.
    pub fn new() -> (r: Self)
        ensures
            r.spec_next_sound() == 0,
            r.spec_next_instance() == 0,
            r.spec_next_parameter() == 0,
            r.spec_next_group() == 0,
            r.spec_next_metronome() == 0,
    {
        IdGenerator { next_sound: 0, next_instance: 0, next_parameter: 0, next_group: 0, next_metronome: 0 }
    }

    /// A sound identifier that this generator has not handed out before, or
    /// nothing once its counter is used up.
    pub fn next_sound_id(&mut self) -> (r: Option<SoundId>)
        ensures
            old(self).spec_next_sound() == u64::MAX ==> r is None && final(self).spec_next_sound() == old(self).spec_next_sound(),
            old(self).spec_next_sound() < u64::MAX ==> r == Some(SoundId { index: old(self).spec_next_sound() })
                && final(self).spec_next_sound() == old(self).spec_next_sound() + 1,
            final(self).spec_next_instance() == old(self).spec_next_instance(),
            final(self).spec_next_parameter() == old(self).spec_next_parameter(),
            final(self).spec_next_group() == old(self).spec_next_group(),
            final(self).spec_next_metronome() == old(self).spec_next_metronome(),
    {
        if self.next_sound == u64::MAX {
            return None;
        }
        let id = SoundId::new(self.next_sound);
        self.next_sound = self.next_sound + 1;
        Some(id)
    }

    /// An instance identifier that this generator has not handed out before, or
    /// nothing once its counter is used up.
    pub fn next_instance_id(&mut self) -> (r: Option<InstanceId>)
        ensures
            old(self).spec_next_instance() == u64::MAX ==> r is None && final(self).spec_next_instance() == old(self).spec_next_instance(),
            old(self).spec_next_instance() < u64::MAX ==> r == Some(InstanceId { index: old(self).spec_next_instance() })
                && final(self).spec_next_instance() == old(self).spec_next_instance() + 1,
            final(self).spec_next_sound() == old(self).spec_next_sound(),
            final(self).spec_next_parameter() == old(self).spec_next_parameter(),
            final(self).spec_next_group() == old(self).spec_next_group(),
            final(self).spec_next_metronome() == old(self).spec_next_metronome(),
    {
        if self.next_instance == u64::MAX {
            return None;
        }
        let id = InstanceId::new(self.next_instance);
        self.next_instance = self.next_instance + 1;
        Some(id)
    }

    /// A parameter identifier that this generator has not handed out before, or
    /// nothing once its counter is used up.
    pub fn next_parameter_id(&mut self) -> (r: Option<ParameterId>)
        ensures
            old(self).spec_next_parameter() == u64::MAX ==> r is None && final(self).spec_next_parameter() == old(self).spec_next_parameter(),
            old(self).spec_next_parameter() < u64::MAX ==> r == Some(ParameterId { index: old(self).spec_next_parameter() })
                && final(self).spec_next_parameter() == old(self).spec_next_parameter() + 1,
            final(self).spec_next_sound() == old(self).spec_next_sound(),
            final(self).spec_next_instance() == old(self).spec_next_instance(),
            final(self).spec_next_group() == old(self).spec_next_group(),
            final(self).spec_next_metronome() == old(self).spec_next_metronome(),
    {
        if self.next_parameter == u64::MAX {
            return None;
        }
        let id = ParameterId::new(self.next_parameter);
        self.next_parameter = self.next_parameter + 1;
        Some(id)
    }

    /// A group identifier that this generator has not handed out before, or
    /// nothing once its counter is used up.
    pub fn next_group_id(&mut self) -> (r: Option<GroupId>)
        ensures
            old(self).spec_next_group() == u64::MAX ==> r is None && final(self).spec_next_group() == old(self).spec_next_group(),
            old(self).spec_next_group() < u64::MAX ==> r == Some(GroupId { index: old(self).spec_next_group() })
                && final(self).spec_next_group() == old(self).spec_next_group() + 1,
            final(self).spec_next_sound() == old(self).spec_next_sound(),
            final(self).spec_next_instance() == old(self).spec_next_instance(),
            final(self).spec_next_parameter() == old(self).spec_next_parameter(),
            final(self).spec_next_metronome() == old(self).spec_next_metronome(),
    {
        if self.next_group == u64::MAX {
            return None;
        }
        let id = GroupId::new(self.next_group);
        self.next_group = self.next_group + 1;
        Some(id)
    }

    /// A metronome identifier that this generator has not handed out before, or
    /// nothing once its counter is used up.
    pub fn next_metronome_id(&mut self) -> (r: Option<MetronomeId>)
        ensures
            old(self).spec_next_metronome() == u64::MAX ==> r is None && final(self).spec_next_metronome() == old(self).spec_next_metronome(),
            old(self).spec_next_metronome() < u64::MAX ==> r == Some(MetronomeId { index: old(self).spec_next_metronome() })
                && final(self).spec_next_metronome() == old(self).spec_next_metronome() + 1,
            final(self).spec_next_sound() == old(self).spec_next_sound(),
            final(self).spec_next_instance() == old(self).spec_next_instance(),
            final(self).spec_next_parameter() == old(self).spec_next_parameter(),
            final(self).spec_next_group() == old(self).spec_next_group(),
    {
        if self.next_metronome == u64::MAX {
            return None;
        }
        let id = MetronomeId::new(self.next_metronome);
        self.next_metronome = self.next_metronome + 1;
        Some(id)
    }
}

} // verus!
