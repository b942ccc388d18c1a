//! The control thread's record of which identifiers are in use, so that
//! limits are enforced before a command is sent.
use vstd::prelude::*;
use indexmap::IndexSet;
use crate::backend::AudioManagerSettings;
use crate::error::{
    AddGroupError, AddMetronomeError, AddParameterError, AddSendTrackError, AddSoundError, AddSubTrackError,
    RemoveGroupError, RemoveMetronomeError, RemoveParameterError, RemoveSendTrackError, RemoveSoundError,
    RemoveSubTrackError,
};
use crate::group::GroupId;
use crate::mixer::{SendTrackId, SubTrackId};
use crate::metronome::MetronomeId;
use crate::id::{ParameterId, SoundId};

verus! {

#[verifier::external_type_specification]
#[verifier::external_body]
#[verifier::reject_recursive_types(T)]
#[verifier::reject_recursive_types(S)]
pub struct ExIndexSet<T, S>(IndexSet<T, S>);

/// The values an index set of identifiers holds.
pub uninterp spec fn id_set_view(s: IndexSet<u64>) -> Set<u64>;

/// Relies on indexmap's `IndexSet::with_capacity`: a new, empty set.
#[verifier::external_body]
fn id_set_new(capacity: usize) -> (r: IndexSet<u64>)
    ensures
        id_set_view(r) == Set::<u64>::empty(),
{
    IndexSet::with_capacity(capacity)
}

/// Relies on indexmap's `IndexSet::len`: the number of values in the set.
#[verifier::external_body]
fn id_set_len(s: &IndexSet<u64>) -> (r: usize)
    ensures
        r == id_set_view(*s).len(),
{
    s.len()
}

/// Relies on indexmap's `IndexSet::insert`: the value is in the set
/// afterwards, and the result says whether it was new.
#[verifier::external_body]
fn id_set_insert(s: &mut IndexSet<u64>, value: u64) -> (r: bool)
    ensures
        id_set_view(*final(s)) == id_set_view(*old(s)).insert(value),
        r == !id_set_view(*old(s)).contains(value),
{
    s.insert(value)
}

/// Relies on indexmap's `IndexSet::remove`: the value is not in the set
/// afterwards, and the result says whether it was there.
#[verifier::external_body]
fn id_set_remove(s: &mut IndexSet<u64>, value: u64) -> (r: bool)
    ensures
        id_set_view(*final(s)) == id_set_view(*old(s)).remove(value),
        r == id_set_view(*old(s)).contains(value),
{
    s.remove(&value)
}

/// The identifiers of the sounds and parameters that exist, with the
/// most of each that may exist at once.
pub struct ActiveIds {
    sound_ids: IndexSet<u64>,
    parameter_ids: IndexSet<u64>,
    metronome_ids: IndexSet<u64>,
    group_ids: IndexSet<u64>,
    sub_track_ids: IndexSet<u64>,
    send_track_ids: IndexSet<u64>,
    num_sounds: usize,
    num_parameters: usize,
    num_metronomes: usize,
    num_groups: usize,
    num_sub_tracks: usize,
    num_send_tracks: usize,
}

impl ActiveIds {
    /// The indices of the sounds that exist.
    pub closed spec fn spec_sounds(&self) -> Set<u64> {
        id_set_view(self.sound_ids)
    }

    /// The indices of the parameters that exist.
    pub closed spec fn spec_parameters(&self) -> Set<u64> {
        id_set_view(self.parameter_ids)
    }

    /// The indices of the metronomes that exist.
    pub closed spec fn spec_metronomes(&self) -> Set<u64> {
        id_set_view(self.metronome_ids)
    }

    /// The indices of the groups that exist.
    pub closed spec fn spec_groups(&self) -> Set<u64> {
        id_set_view(self.group_ids)
    }

    /// The indices of the sub-tracks that exist.
    pub closed spec fn spec_sub_tracks(&self) -> Set<u64> {
        id_set_view(self.sub_track_ids)
    }

    /// The most sub-tracks that may exist at once.
    pub closed spec fn spec_sub_track_limit(&self) -> nat {
        self.num_sub_tracks as nat
    }

    /// The indices of the send tracks that exist.
    pub closed spec fn spec_send_tracks(&self) -> Set<u64> {
        id_set_view(self.send_track_ids)
    }

    /// The most send tracks that may exist at once.
    pub closed spec fn spec_send_track_limit(&self) -> nat {
        self.num_send_tracks as nat
    }

    /// The most groups that may exist at once.
    pub closed spec fn spec_group_limit(&self) -> nat {
        self.num_groups as nat
    }

    /// The most metronomes that may exist at once.
    pub closed spec fn spec_metronome_limit(&self) -> nat {
        self.num_metronomes as nat
    }

    /// The most sounds that may exist at once.
    pub closed spec fn spec_sound_limit(&self) -> nat {
        self.num_sounds as nat
    }

    /// The most parameters that may exist at once.
    pub closed spec fn spec_parameter_limit(&self) -> nat {
        self.num_parameters as nat
    }

    /// The records are finite.
    pub open spec fn wf(&self) -> bool {
        &&& self.spec_sounds().finite()
        &&& self.spec_parameters().finite()
        &&& self.spec_metronomes().finite()
        &&& self.spec_groups().finite()
        &&& self.spec_sub_tracks().finite()
        &&& self.spec_send_tracks().finite()
    }

    /// Empty records with the limits of `settings`.
    pub fn new(settings: &AudioManagerSettings) -> (r: ActiveIds)
        ensures
            r.wf(),
            r.spec_sounds() == Set::<u64>::empty(),
            r.spec_parameters() == Set::<u64>::empty(),
            r.spec_sound_limit() == settings.num_sounds,
            r.spec_parameter_limit() == settings.num_parameters,
            r.spec_metronomes() == Set::<u64>::empty(),
            r.spec_metronome_limit() == settings.num_metronomes,
            r.spec_groups() == Set::<u64>::empty(),
            r.spec_group_limit() == settings.num_groups,
            r.spec_sub_tracks() == Set::<u64>::empty(),
            r.spec_sub_track_limit() == settings.num_sub_tracks,
            r.spec_send_tracks() == Set::<u64>::empty(),
            r.spec_send_track_limit() == settings.num_send_tracks,
    {
        ActiveIds {
            sound_ids: id_set_new(settings.num_sounds),
            parameter_ids: id_set_new(settings.num_parameters),
            metronome_ids: id_set_new(settings.num_metronomes),
            group_ids: id_set_new(settings.num_groups),
            sub_track_ids: id_set_new(settings.num_sub_tracks),
            send_track_ids: id_set_new(settings.num_send_tracks),
            num_sounds: settings.num_sounds,
            num_parameters: settings.num_parameters,
            num_metronomes: settings.num_metronomes,
            num_groups: settings.num_groups,
            num_sub_tracks: settings.num_sub_tracks,
            num_send_tracks: settings.num_send_tracks,
        }
    }

    /// Records the sound `id`, unless as many sounds as allowed exist.
    pub fn add_sound_id(&mut self, id: SoundId) -> (r: Result<(), AddSoundError>)
        requires
            old(self).wf(),
        ensures
            final(self).wf(),
            final(self).spec_parameters() == old(self).spec_parameters(),
            final(self).spec_metronomes() == old(self).spec_metronomes(),
            final(self).spec_groups() == old(self).spec_groups(),
            final(self).spec_sub_tracks() == old(self).spec_sub_tracks(),
            final(self).spec_send_tracks() == old(self).spec_send_tracks(),
            final(self).spec_sound_limit() == old(self).spec_sound_limit(),
            final(self).spec_parameter_limit() == old(self).spec_parameter_limit(),
            final(self).spec_metronome_limit() == old(self).spec_metronome_limit(),
            final(self).spec_group_limit() == old(self).spec_group_limit(),
            final(self).spec_sub_track_limit() == old(self).spec_sub_track_limit(),
            final(self).spec_send_track_limit() == old(self).spec_send_track_limit(),
            old(self).spec_sounds().len() >= old(self).spec_sound_limit() ==> r == Err::<(), AddSoundError>(
                AddSoundError::SoundLimitReached,
            ) && final(self).spec_sounds() == old(self).spec_sounds(),
            old(self).spec_sounds().len() < old(self).spec_sound_limit() ==> r is Ok && final(self).spec_sounds()
                == old(self).spec_sounds().insert(id.index),
    {
        if id_set_len(&self.sound_ids) >= self.num_sounds {
            return Err(AddSoundError::SoundLimitReached);
        }
        id_set_insert(&mut self.sound_ids, id.index);
        Ok(())
    }

    /// Forgets the sound `id`; fails when it is not recorded.
    pub fn remove_sound_id(&mut self, id: SoundId) -> (r: Result<(), RemoveSoundError>)
        requires
            old(self).wf(),
        ensures
            final(self).wf(),
            final(self).spec_parameters() == old(self).spec_parameters(),
            final(self).spec_metronomes() == old(self).spec_metronomes(),
            final(self).spec_groups() == old(self).spec_groups(),
            final(self).spec_sub_tracks() == old(self).spec_sub_tracks(),
            final(self).spec_send_tracks() == old(self).spec_send_tracks(),
            final(self).spec_sound_limit() == old(self).spec_sound_limit(),
            final(self).spec_parameter_limit() == old(self).spec_parameter_limit(),
            final(self).spec_metronome_limit() == old(self).spec_metronome_limit(),
            final(self).spec_group_limit() == old(self).spec_group_limit(),
            final(self).spec_sub_track_limit() == old(self).spec_sub_track_limit(),
            final(self).spec_send_track_limit() == old(self).spec_send_track_limit(),
            final(self).spec_sounds() == old(self).spec_sounds().remove(id.index),
            old(self).spec_sounds().contains(id.index) ==> r is Ok,
            !old(self).spec_sounds().contains(id.index) ==> r == Err::<(), RemoveSoundError>(
                RemoveSoundError::NoSoundWithId(id),
            ),
    {
        if !id_set_remove(&mut self.sound_ids, id.index) {
            return Err(RemoveSoundError::NoSoundWithId(id));
        }
        Ok(())
    }

    /// Records the parameter `id`, unless as many parameters as allowed exist.
    pub fn add_parameter_id(&mut self, id: ParameterId) -> (r: Result<(), AddParameterError>)
        requires
            old(self).wf(),
        ensures
            final(self).wf(),
            final(self).spec_sounds() == old(self).spec_sounds(),
            final(self).spec_metronomes() == old(self).spec_metronomes(),
            final(self).spec_groups() == old(self).spec_groups(),
            final(self).spec_sub_tracks() == old(self).spec_sub_tracks(),
            final(self).spec_send_tracks() == old(self).spec_send_tracks(),
            final(self).spec_sound_limit() == old(self).spec_sound_limit(),
            final(self).spec_parameter_limit() == old(self).spec_parameter_limit(),
            final(self).spec_metronome_limit() == old(self).spec_metronome_limit(),
            final(self).spec_group_limit() == old(self).spec_group_limit(),
            final(self).spec_sub_track_limit() == old(self).spec_sub_track_limit(),
            final(self).spec_send_track_limit() == old(self).spec_send_track_limit(),
            old(self).spec_parameters().len() >= old(self).spec_parameter_limit()
                ==> r == Err::<(), AddParameterError>(AddParameterError::ParameterLimitReached)
                && final(self).spec_parameters() == old(self).spec_parameters(),
            old(self).spec_parameters().len() < old(self).spec_parameter_limit()
                ==> r is Ok && final(self).spec_parameters() == old(self).spec_parameters().insert(id.index),
    {
        if id_set_len(&self.parameter_ids) >= self.num_parameters {
            return Err(AddParameterError::ParameterLimitReached);
        }
        id_set_insert(&mut self.parameter_ids, id.index);
        Ok(())
    }

    /// Forgets the parameter `id`; fails when it is not recorded.
    pub fn remove_parameter_id(&mut self, id: ParameterId) -> (r: Result<(), RemoveParameterError>)
        requires
            old(self).wf(),
        ensures
            final(self).wf(),
            final(self).spec_sounds() == old(self).spec_sounds(),
            final(self).spec_metronomes() == old(self).spec_metronomes(),
            final(self).spec_groups() == old(self).spec_groups(),
            final(self).spec_sub_tracks() == old(self).spec_sub_tracks(),
            final(self).spec_send_tracks() == old(self).spec_send_tracks(),
            final(self).spec_sound_limit() == old(self).spec_sound_limit(),
            final(self).spec_parameter_limit() == old(self).spec_parameter_limit(),
            final(self).spec_metronome_limit() == old(self).spec_metronome_limit(),
            final(self).spec_group_limit() == old(self).spec_group_limit(),
            final(self).spec_sub_track_limit() == old(self).spec_sub_track_limit(),
            final(self).spec_send_track_limit() == old(self).spec_send_track_limit(),
            final(self).spec_parameters() == old(self).spec_parameters().remove(id.index),
            old(self).spec_parameters().contains(id.index) ==> r is Ok,
            !old(self).spec_parameters().contains(id.index) ==> r == Err::<(), RemoveParameterError>(
                RemoveParameterError::NoParameterWithId(id),
            ),
    {
        if !id_set_remove(&mut self.parameter_ids, id.index) {
            return Err(RemoveParameterError::NoParameterWithId(id));
        }
        Ok(())
    }

    /// Records the metronome `id`, unless as many metronomes as allowed exist.
    pub fn add_metronome_id(&mut self, id: MetronomeId) -> (r: Result<(), AddMetronomeError>)
        requires
            old(self).wf(),
        ensures
            final(self).wf(),
            final(self).spec_sounds() == old(self).spec_sounds(),
            final(self).spec_parameters() == old(self).spec_parameters(),
            final(self).spec_groups() == old(self).spec_groups(),
            final(self).spec_sub_tracks() == old(self).spec_sub_tracks(),
            final(self).spec_send_tracks() == old(self).spec_send_tracks(),
            final(self).spec_sound_limit() == old(self).spec_sound_limit(),
            final(self).spec_parameter_limit() == old(self).spec_parameter_limit(),
            final(self).spec_metronome_limit() == old(self).spec_metronome_limit(),
            final(self).spec_group_limit() == old(self).spec_group_limit(),
            final(self).spec_sub_track_limit() == old(self).spec_sub_track_limit(),
            final(self).spec_send_track_limit() == old(self).spec_send_track_limit(),
            old(self).spec_metronomes().len() >= old(self).spec_metronome_limit()
                ==> r == Err::<(), AddMetronomeError>(AddMetronomeError::MetronomeLimitReached)
                && final(self).spec_metronomes() == old(self).spec_metronomes(),
            old(self).spec_metronomes().len() < old(self).spec_metronome_limit()
                ==> r is Ok && final(self).spec_metronomes() == old(self).spec_metronomes().insert(id.index),
    {
        if id_set_len(&self.metronome_ids) >= self.num_metronomes {
            return Err(AddMetronomeError::MetronomeLimitReached);
        }
        id_set_insert(&mut self.metronome_ids, id.index);
        Ok(())
    }

    /// Forgets the metronome `id`; fails when it is not recorded.
    pub fn remove_metronome_id(&mut self, id: MetronomeId) -> (r: Result<(), RemoveMetronomeError>)
        requires
            old(self).wf(),
        ensures
            final(self).wf(),
            final(self).spec_sounds() == old(self).spec_sounds(),
            final(self).spec_parameters() == old(self).spec_parameters(),
            final(self).spec_groups() == old(self).spec_groups(),
            final(self).spec_sub_tracks() == old(self).spec_sub_tracks(),
            final(self).spec_send_tracks() == old(self).spec_send_tracks(),
            final(self).spec_sound_limit() == old(self).spec_sound_limit(),
            final(self).spec_parameter_limit() == old(self).spec_parameter_limit(),
            final(self).spec_metronome_limit() == old(self).spec_metronome_limit(),
            final(self).spec_group_limit() == old(self).spec_group_limit(),
            final(self).spec_sub_track_limit() == old(self).spec_sub_track_limit(),
            final(self).spec_send_track_limit() == old(self).spec_send_track_limit(),
            final(self).spec_metronomes() == old(self).spec_metronomes().remove(id.index),
            old(self).spec_metronomes().contains(id.index) ==> r is Ok,
            !old(self).spec_metronomes().contains(id.index) ==> r == Err::<(), RemoveMetronomeError>(
                RemoveMetronomeError::NoMetronomeWithId(id),
            ),
    {
        if !id_set_remove(&mut self.metronome_ids, id.index) {
            return Err(RemoveMetronomeError::NoMetronomeWithId(id));
        }
        Ok(())
    }

    /// Records the group `id`, unless as many groups as allowed exist.
    pub fn add_group_id(&mut self, id: GroupId) -> (r: Result<(), AddGroupError>)
        requires
            old(self).wf(),
        ensures
            final(self).wf(),
            final(self).spec_sounds() == old(self).spec_sounds(),
            final(self).spec_parameters() == old(self).spec_parameters(),
            final(self).spec_metronomes() == old(self).spec_metronomes(),
            final(self).spec_sub_tracks() == old(self).spec_sub_tracks(),
            final(self).spec_send_tracks() == old(self).spec_send_tracks(),
            final(self).spec_sound_limit() == old(self).spec_sound_limit(),
            final(self).spec_parameter_limit() == old(self).spec_parameter_limit(),
            final(self).spec_metronome_limit() == old(self).spec_metronome_limit(),
            final(self).spec_group_limit() == old(self).spec_group_limit(),
            final(self).spec_sub_track_limit() == old(self).spec_sub_track_limit(),
            final(self).spec_send_track_limit() == old(self).spec_send_track_limit(),
            old(self).spec_groups().len() >= old(self).spec_group_limit()
                ==> r == Err::<(), AddGroupError>(AddGroupError::GroupLimitReached)
                && final(self).spec_groups() == old(self).spec_groups(),
            old(self).spec_groups().len() < old(self).spec_group_limit()
                ==> r is Ok && final(self).spec_groups() == old(self).spec_groups().insert(id.index),
    {
        if id_set_len(&self.group_ids) >= self.num_groups {
            return Err(AddGroupError::GroupLimitReached);
        }
        id_set_insert(&mut self.group_ids, id.index);
        Ok(())
    }

    /// Forgets the group `id`; fails when it is not recorded.
    pub fn remove_group_id(&mut self, id: GroupId) -> (r: Result<(), RemoveGroupError>)
        requires
            old(self).wf(),
        ensures
            final(self).wf(),
            final(self).spec_sounds() == old(self).spec_sounds(),
            final(self).spec_parameters() == old(self).spec_parameters(),
            final(self).spec_metronomes() == old(self).spec_metronomes(),
            final(self).spec_sub_tracks() == old(self).spec_sub_tracks(),
            final(self).spec_send_tracks() == old(self).spec_send_tracks(),
            final(self).spec_sound_limit() == old(self).spec_sound_limit(),
            final(self).spec_parameter_limit() == old(self).spec_parameter_limit(),
            final(self).spec_metronome_limit() == old(self).spec_metronome_limit(),
            final(self).spec_group_limit() == old(self).spec_group_limit(),
            final(self).spec_sub_track_limit() == old(self).spec_sub_track_limit(),
            final(self).spec_send_track_limit() == old(self).spec_send_track_limit(),
            final(self).spec_groups() == old(self).spec_groups().remove(id.index),
            old(self).spec_groups().contains(id.index) ==> r is Ok,
            !old(self).spec_groups().contains(id.index) ==> r == Err::<(), RemoveGroupError>(
                RemoveGroupError::NoGroupWithId(id),
            ),
    {
        if !id_set_remove(&mut self.group_ids, id.index) {
            return Err(RemoveGroupError::NoGroupWithId(id));
        }
        Ok(())
    }

    /// Records the sub-track `id`, unless as many sub-tracks as allowed exist.
    pub fn add_sub_track_id(&mut self, id: SubTrackId) -> (r: Result<(), AddSubTrackError>)
        requires
            old(self).wf(),
        ensures
            final(self).wf(),
            final(self).spec_sounds() == old(self).spec_sounds(),
            final(self).spec_parameters() == old(self).spec_parameters(),
            final(self).spec_metronomes() == old(self).spec_metronomes(),
            final(self).spec_groups() == old(self).spec_groups(),
            final(self).spec_send_tracks() == old(self).spec_send_tracks(),
            final(self).spec_sound_limit() == old(self).spec_sound_limit(),
            final(self).spec_parameter_limit() == old(self).spec_parameter_limit(),
            final(self).spec_metronome_limit() == old(self).spec_metronome_limit(),
            final(self).spec_group_limit() == old(self).spec_group_limit(),
            final(self).spec_sub_track_limit() == old(self).spec_sub_track_limit(),
            final(self).spec_send_track_limit() == old(self).spec_send_track_limit(),
            old(self).spec_sub_tracks().len() >= old(self).spec_sub_track_limit()
                ==> r == Err::<(), AddSubTrackError>(AddSubTrackError::TrackLimitReached)
                && final(self).spec_sub_tracks() == old(self).spec_sub_tracks(),
            old(self).spec_sub_tracks().len() < old(self).spec_sub_track_limit()
                ==> r is Ok && final(self).spec_sub_tracks() == old(self).spec_sub_tracks().insert(id.index),
    {
        if id_set_len(&self.sub_track_ids) >= self.num_sub_tracks {
            return Err(AddSubTrackError::TrackLimitReached);
        }
        id_set_insert(&mut self.sub_track_ids, id.index);
        Ok(())
    }

    /// Forgets the sub-track `id`; fails when it is not recorded.
    pub fn remove_sub_track_id(&mut self, id: SubTrackId) -> (r: Result<(), RemoveSubTrackError>)
        requires
            old(self).wf(),
        ensures
            final(self).wf(),
            final(self).spec_sounds() == old(self).spec_sounds(),
            final(self).spec_parameters() == old(self).spec_parameters(),
            final(self).spec_metronomes() == old(self).spec_metronomes(),
            final(self).spec_groups() == old(self).spec_groups(),
            final(self).spec_send_tracks() == old(self).spec_send_tracks(),
            final(self).spec_sound_limit() == old(self).spec_sound_limit(),
            final(self).spec_parameter_limit() == old(self).spec_parameter_limit(),
            final(self).spec_metronome_limit() == old(self).spec_metronome_limit(),
            final(self).spec_group_limit() == old(self).spec_group_limit(),
            final(self).spec_sub_track_limit() == old(self).spec_sub_track_limit(),
            final(self).spec_send_track_limit() == old(self).spec_send_track_limit(),
            final(self).spec_sub_tracks() == old(self).spec_sub_tracks().remove(id.index),
            old(self).spec_sub_tracks().contains(id.index) ==> r is Ok,
            !old(self).spec_sub_tracks().contains(id.index) ==> r == Err::<(), RemoveSubTrackError>(RemoveSubTrackError::NoSubTrackWithId(id)),
    {
        if !id_set_remove(&mut self.sub_track_ids, id.index) {
            return Err(RemoveSubTrackError::NoSubTrackWithId(id));
        }
        Ok(())
    }

    /// Records the send track `id`, unless as many send tracks as allowed exist.
    pub fn add_send_track_id(&mut self, id: SendTrackId) -> (r: Result<(), AddSendTrackError>)
        requires
            old(self).wf(),
        ensures
            final(self).wf(),
            final(self).spec_sounds() == old(self).spec_sounds(),
            final(self).spec_parameters() == old(self).spec_parameters(),
            final(self).spec_metronomes() == old(self).spec_metronomes(),
            final(self).spec_groups() == old(self).spec_groups(),
            final(self).spec_sub_tracks() == old(self).spec_sub_tracks(),
            final(self).spec_sound_limit() == old(self).spec_sound_limit(),
            final(self).spec_parameter_limit() == old(self).spec_parameter_limit(),
            final(self).spec_metronome_limit() == old(self).spec_metronome_limit(),
            final(self).spec_group_limit() == old(self).spec_group_limit(),
            final(self).spec_sub_track_limit() == old(self).spec_sub_track_limit(),
            final(self).spec_send_track_limit() == old(self).spec_send_track_limit(),
            old(self).spec_send_tracks().len() >= old(self).spec_send_track_limit()
                ==> r == Err::<(), AddSendTrackError>(AddSendTrackError::TrackLimitReached)
                && final(self).spec_send_tracks() == old(self).spec_send_tracks(),
            old(self).spec_send_tracks().len() < old(self).spec_send_track_limit()
                ==> r is Ok && final(self).spec_send_tracks() == old(self).spec_send_tracks().insert(id.index),
    {
        if id_set_len(&self.send_track_ids) >= self.num_send_tracks {
            return Err(AddSendTrackError::TrackLimitReached);
        }
        id_set_insert(&mut self.send_track_ids, id.index);
        Ok(())
    }

    /// Forgets the send track `id`; fails when it is not recorded.
    pub fn remove_send_track_id(&mut self, id: SendTrackId) -> (r: Result<(), RemoveSendTrackError>)
        requires
            old(self).wf(),
        ensures
            final(self).wf(),
            final(self).spec_sounds() == old(self).spec_sounds(),
            final(self).spec_parameters() == old(self).spec_parameters(),
            final(self).spec_metronomes() == old(self).spec_metronomes(),
            final(self).spec_groups() == old(self).spec_groups(),
            final(self).spec_sub_tracks() == old(self).spec_sub_tracks(),
            final(self).spec_sound_limit() == old(self).spec_sound_limit(),
            final(self).spec_parameter_limit() == old(self).spec_parameter_limit(),
            final(self).spec_metronome_limit() == old(self).spec_metronome_limit(),
            final(self).spec_group_limit() == old(self).spec_group_limit(),
            final(self).spec_sub_track_limit() == old(self).spec_sub_track_limit(),
            final(self).spec_send_track_limit() == old(self).spec_send_track_limit(),
            final(self).spec_send_tracks() == old(self).spec_send_tracks().remove(id.index),
            old(self).spec_send_tracks().contains(id.index) ==> r is Ok,
            !old(self).spec_send_tracks().contains(id.index) ==> r == Err::<(), RemoveSendTrackError>(
                RemoveSendTrackError::NoSendTrackWithId(id),
            ),
    {
        if !id_set_remove(&mut self.send_track_ids, id.index) {
            return Err(RemoveSendTrackError::NoSendTrackWithId(id));
        }
        Ok(())
    }
}

} // verus!
