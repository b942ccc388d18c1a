//! The audio thread's side of the engine: commands and the mixing tick.
use vstd::prelude::*;
use std::sync::Arc;
use crate::frame::{Frame, UNIT};
use crate::id::{InstanceId, ParameterId, SoundId};
use crate::instance::{clamp_position, commanded, Instance, InstanceCommand, InstanceController, InstanceState};
use crate::group::{in_group, Group, GroupId, Groups};
use crate::instances::{feed, pool_ticked, pushed, Instances};
use crate::mixer::{
    mixer_output, mixer_refreshed, route_sends, route_subs, Mixer, SendTrack, SendTrackId, SubTrack, SubTrackId,
};
use crate::metronome::{crosses, metronome_commanded, metronome_updated, Metronome, MetronomeCommand, MetronomeId, Metronomes};
use crate::parameter::{parameter_step, set_model, Parameter, Parameters, Tween};
use crate::sequence::{
    blocked, run_steps, sequence_commanded, stepped, steps_act, tick_acts, sequence_ticked, step_budget, waited, SequenceAction, SequenceCommand, SequenceInstance,
    SequenceInstanceId, Sequences, Waiting,
};
use crate::settings::InstanceSettings;
use crate::sound::{sounds_counted_down, Sound, Sounds};
use crate::vec_map::{find_key, without_key};

verus! {

/// The capacities of the engine's collections.
#[derive(Debug, Clone, Copy)]
pub struct AudioManagerSettings {
    /// How many commands can wait for the audio thread.
    pub num_commands: usize,
    /// How many sounds can be loaded at once.
    pub num_sounds: usize,
    /// How many instances can play at once.
    pub num_instances: usize,
    /// How many parameters can exist at once.
    pub num_parameters: usize,
    /// How many metronomes can exist at once.
    pub num_metronomes: usize,
    /// How many groups can exist at once.
    pub num_groups: usize,
    /// How many sequences can run at once.
    pub num_sequences: usize,
    /// How many sub-tracks the mixer holds.
    pub num_sub_tracks: usize,
    /// How many send tracks the mixer holds.
    pub num_send_tracks: usize,
}

impl AudioManagerSettings {
    /// Room for 100 commands, 100 sounds, 100 instances, 100 parameters,
    /// 5 metronomes, 100 groups, 25 sequences, 100 sub-tracks and 16 send
    /// tracks.
    pub fn new() -> (r: AudioManagerSettings)
        ensures
            r.num_commands == 100 && r.num_sounds == 100,
            r.num_instances == 100 && r.num_parameters == 100,
            r.num_metronomes == 5,
            r.num_groups == 100,
            r.num_sequences == 25,
            r.num_sub_tracks == 100 && r.num_send_tracks == 16,
    {
        AudioManagerSettings {
            num_commands: 100,
            num_sounds: 100,
            num_instances: 100,
            num_parameters: 100,
            num_metronomes: 5,
            num_groups: 100,
            num_sequences: 25,
            num_sub_tracks: 100,
            num_send_tracks: 16,
        }
    }
}

/// Something the control thread asks of the audio thread.
pub enum Command {
    /// Register a sound.
    AddSound(SoundId, Sound),
    /// Unregister a sound; its instances play on.
    RemoveSound(SoundId),
    /// Start an instance of a sound, publishing through the controller.
    Play(InstanceId, SoundId, InstanceSettings, Arc<InstanceController>),
    /// Pass a command to one instance.
    Instance(InstanceId, InstanceCommand),
    /// Pass a command to every instance of a sound.
    InstancesOfSound(SoundId, InstanceCommand),
    /// Pass a command to every instance of the sounds in a group.
    InstancesOfGroup(GroupId, InstanceCommand),
    /// Register a group.
    AddGroup(GroupId, Group),
    /// Unregister a group.
    RemoveGroup(GroupId),
    /// Add a parameter at a value.
    AddParameter(ParameterId, i32),
    /// Move a parameter to a value, at once or along a tween.
    SetParameter(ParameterId, i32, Option<Tween>),
    /// Remove a parameter; values following it keep their last value.
    RemoveParameter(ParameterId),
    /// Register a metronome.
    AddMetronome(MetronomeId, Metronome),
    /// Unregister a metronome.
    RemoveMetronome(MetronomeId),
    /// Pass a command to a metronome.
    Metronome(MetronomeId, MetronomeCommand),
    /// Start a sequence.
    StartSequence(SequenceInstanceId, SequenceInstance),
    /// Pass a command to a running sequence.
    Sequence(SequenceInstanceId, SequenceCommand),
    /// Forget a sequence.
    RemoveSequence(SequenceInstanceId),
    /// Add a sub-track to the mixer.
    AddSubTrack(SubTrackId, SubTrack),
    /// Remove a sub-track from the mixer.
    RemoveSubTrack(SubTrackId),
    /// Add a send track to the mixer.
    AddSendTrack(SendTrackId, SendTrack),
    /// Remove a send track from the mixer.
    RemoveSendTrack(SendTrackId),
}

/// Something that left the audio thread's collections, handed back so that
/// it is dropped elsewhere.
pub enum Released {
    Sound(Sound),
    SubTrack(SubTrack),
    SendTrack(SendTrack),
    Metronome(Metronome),
    Group(Group),
    Sequence(SequenceInstance),
}

/// Whether the sequence `s` waits for an interval that the metronome it
/// follows, among `ms`, crossed during its last tick.
pub open spec fn sequence_passed(ms: Metronomes, s: SequenceInstance) -> bool {
    match s.spec_metronome() {
        Some(m) => match s.spec_model().2 {
            Waiting::Interval(iv) => {
                let k = find_key(ms@, m.index);
                k >= 0 && crosses(ms@[k].1.spec_previous(), ms@[k].1.spec_progress(), iv as int, ms@[k].1.spec_per_beat())
            },
            _ => false,
        },
        None => false,
    }
}

/// Whether no running sequence of `seqs` takes a step that plays a sound or
/// sets a parameter during a tick of `dt` ticks following the metronomes `ms`.
pub open spec fn no_sequence_acts(seqs: Seq<(u64, SequenceInstance)>, ms: Metronomes, dt: int) -> bool {
    forall|j: int| 0 <= j < seqs.len() ==> !tick_acts(#[trigger] seqs[j].1, dt, sequence_passed(ms, seqs[j].1))
}

/// Whether the running sequences `new` are `old` after one tick of `dt`
/// ticks following the metronomes `ms` (see [`sequence_ticked`]).
pub open spec fn sequences_ticked(
    old: Seq<(u64, SequenceInstance)>,
    new: Seq<(u64, SequenceInstance)>,
    ms: Metronomes,
    dt: int,
) -> bool {
    &&& new.len() == old.len()
    &&& forall|j: int| 0 <= j < old.len() ==> (#[trigger] new[j]).0 == old[j].0 && sequence_ticked(
        old[j].1,
        new[j].1,
        dt,
        sequence_passed(ms, old[j].1),
    )
}

/// Instances that sequences start get identifiers from this index on, apart
/// from those the control thread hands out.
pub const SEQUENCE_INSTANCE_BASE: u64 = 0x8000_0000_0000_0000;

/// Everything the audio thread owns, advanced one tick per call of
/// [`Backend::process`].
pub struct Backend {
    dt: u32,
    sounds: Sounds,
    instances: Instances,
    parameters: Parameters,
    metronomes: Metronomes,
    groups: Groups,
    sequences: Sequences,
    sequence_controller: Arc<InstanceController>,
    next_sequence_instance: u64,
    mixer: Mixer,
}

impl Backend {
    /// The groups.
    pub closed spec fn spec_groups(&self) -> Groups {
        self.groups
    }

    /// The running sequences.
    pub closed spec fn spec_sequences(&self) -> Sequences {
        self.sequences
    }

    /// The mixer.
    pub closed spec fn spec_mixer(&self) -> Mixer {
        self.mixer
    }

    /// The metronomes.
    pub closed spec fn spec_metronomes(&self) -> Metronomes {
        self.metronomes
    }

    /// The loaded sounds.
    pub closed spec fn spec_sounds(&self) -> Sounds {
        self.sounds
    }

    /// The active instances.
    pub closed spec fn spec_instances(&self) -> Instances {
        self.instances
    }

    /// The parameters.
    pub closed spec fn spec_parameters(&self) -> Parameters {
        self.parameters
    }

    /// The ticks one call of `process` advances by.
    pub closed spec fn spec_dt(&self) -> u32 {
        self.dt
    }

    /// Every collection is well formed.
    pub open spec fn wf(&self) -> bool {
        &&& self.spec_sounds().wf()
        &&& self.spec_instances().wf()
        &&& self.spec_parameters().wf()
        &&& self.spec_metronomes().wf()
        &&& self.spec_groups().wf()
        &&& self.spec_sequences().wf()
        &&& self.spec_mixer().wf()
    }

    /// Empty collections with the capacities of `settings`, advancing one
    /// tick per call of `process`.
    pub fn new(settings: AudioManagerSettings) -> (r: Backend)
        ensures
            r.wf(),
            r.spec_dt() == 1,
            r.spec_sounds()@.len() == 0,
            r.spec_instances()@.len() == 0,
            r.spec_parameters()@.len() == 0,
            r.spec_sounds().spec_capacity() == settings.num_sounds,
            r.spec_instances().spec_capacity() == settings.num_instances,
            r.spec_parameters().spec_capacity() == settings.num_parameters,
            r.spec_metronomes()@.len() == 0,
            r.spec_metronomes().spec_capacity() == settings.num_metronomes,
            r.spec_sequences()@.len() == 0,
    {
        Backend {
            dt: 1,
            sounds: Sounds::new(settings.num_sounds),
            instances: Instances::new(settings.num_instances),
            parameters: Parameters::new(settings.num_parameters),
            metronomes: Metronomes::new(settings.num_metronomes),
            groups: Groups::new(settings.num_groups),
            sequences: Sequences::new(settings.num_sequences),
            sequence_controller: Arc::new(InstanceController::new()),
            next_sequence_instance: SEQUENCE_INSTANCE_BASE,
            mixer: Mixer::new(settings.num_sub_tracks, settings.num_send_tracks),
        }
    }

    /// The number of active instances.
    pub fn num_instances(&self) -> (r: usize)
        ensures
            r == self.spec_instances()@.len(),
    {
        self.instances.len()
    }

    /// The state of the instance `id`, if it is active.
    pub fn instance_state(&self, id: InstanceId) -> (r: Option<InstanceState>)
        ensures
            find_key(self.spec_instances()@, id.index) == -1 ==> r is None,
            find_key(self.spec_instances()@, id.index) >= 0 ==> r == Some(
                self.spec_instances()@[find_key(self.spec_instances()@, id.index)].1.spec_state(),
            ),
    {
        match self.instances.get(id) {
            Some(instance) => Some(instance.state()),
            None => None,
        }
    }

    /// The position of the instance `id`, if it is active.
    pub fn instance_position(&self, id: InstanceId) -> (r: Option<i64>)
        ensures
            find_key(self.spec_instances()@, id.index) == -1 ==> r is None,
            find_key(self.spec_instances()@, id.index) >= 0 ==> r == Some(
                self.spec_instances()@[find_key(self.spec_instances()@, id.index)].1.spec_position() as i64,
            ),
    {
        match self.instances.get(id) {
            Some(instance) => Some(instance.position()),
            None => None,
        }
    }

    /// The current value of the parameter `id`, if it exists.
    pub fn parameter_value(&self, id: ParameterId) -> (r: Option<i32>)
        ensures
            self.spec_parameters().spec_get(id) is None ==> r is None,
            self.spec_parameters().spec_get(id) matches Some(m) ==> r == Some(m.0 as i32),
    {
        self.parameters.value_of(id)
    }

    /// Starts an instance of the sound `sound_id` under `id`. Nothing happens
    /// when the sound is not loaded or its cooldown has not run out;
    /// otherwise the instance joins the pool, evicting the oldest one when
    /// the pool is full, and the sound's cooldown starts.
    pub fn play(
        &mut self,
        id: InstanceId,
        sound_id: SoundId,
        settings: InstanceSettings,
        controller: Arc<InstanceController>,
    )
        requires
            old(self).wf(),
        ensures
            final(self).wf(),
            played(*old(self), *final(self), id, sound_id, settings),
    {
        let found = match self.sounds.get(sound_id) {
            Some(sound) => {
                if sound.cooled_down() {
                    let data = sound.data().clone();
                    let internal = settings.into_internal(data.duration(), sound.default_loop_start());
                    Some((data, internal, sound.groups().clone()))
                } else {
                    None
                }
            },
            None => None,
        };
        match found {
            Some((data, internal, groups)) => {
                let instance = Instance::new(sound_id, data, internal, controller, groups);
                self.instances.push(id, instance);
                self.sounds.start_cooldown(sound_id);
            },
            None => {},
        }
    }

    /// Registers `sound` under `id` (see [`Sounds::add`]); a sound that
    /// leaves the registry or is refused is handed back, so that it can be
    /// dropped away from the audio thread.
    pub fn add_sound(&mut self, id: SoundId, sound: Sound) -> (r: Option<Sound>)
        requires
            old(self).wf(),
        ensures
            final(self).wf(),
            final(self).spec_dt() == old(self).spec_dt(),
            final(self).spec_sequences() == old(self).spec_sequences(),
            final(self).spec_metronomes() == old(self).spec_metronomes(),
            final(self).spec_groups() == old(self).spec_groups(),
            final(self).spec_instances() == old(self).spec_instances(),
            final(self).spec_parameters() == old(self).spec_parameters(),
            final(self).spec_sounds().spec_capacity() == old(self).spec_sounds().spec_capacity(),
            ({
                let rest = without_key(old(self).spec_sounds()@, id.index);
                &&& rest.len() < old(self).spec_sounds().spec_capacity() ==> final(self).spec_sounds()@ == rest.push(
                    (id.index, sound),
                ) && r == old(self).spec_sounds().spec_get(id)
                &&& rest.len() >= old(self).spec_sounds().spec_capacity() ==> final(self).spec_sounds()@ == rest
                    && r == Some(sound)
            }),
    {
        self.sounds.add(id, sound)
    }

    /// Unregisters the sound `id` and hands it back; its instances are left
    /// as they are and play on.
    pub fn remove_sound(&mut self, id: SoundId) -> (r: Option<Sound>)
        requires
            old(self).wf(),
        ensures
            final(self).wf(),
            final(self).spec_dt() == old(self).spec_dt(),
            final(self).spec_sequences() == old(self).spec_sequences(),
            final(self).spec_metronomes() == old(self).spec_metronomes(),
            final(self).spec_groups() == old(self).spec_groups(),
            final(self).spec_instances() == old(self).spec_instances(),
            final(self).spec_parameters() == old(self).spec_parameters(),
            final(self).spec_sounds().spec_capacity() == old(self).spec_sounds().spec_capacity(),
            final(self).spec_sounds()@ == without_key(old(self).spec_sounds()@, id.index),
            r == old(self).spec_sounds().spec_get(id),
    {
        self.sounds.remove(id)
    }

    /// Carries out `command` on the instance `id`, if it is active.
    pub fn instance_command(&mut self, id: InstanceId, command: InstanceCommand)
        requires
            old(self).wf(),
        ensures
            final(self).wf(),
            final(self).spec_dt() == old(self).spec_dt(),
            final(self).spec_sequences() == old(self).spec_sequences(),
            final(self).spec_metronomes() == old(self).spec_metronomes(),
            final(self).spec_groups() == old(self).spec_groups(),
            final(self).spec_sounds() == old(self).spec_sounds(),
            final(self).spec_parameters() == old(self).spec_parameters(),
            final(self).spec_instances().spec_capacity() == old(self).spec_instances().spec_capacity(),
            final(self).spec_instances()@.len() == old(self).spec_instances()@.len(),
            forall|j: int| 0 <= j < old(self).spec_instances()@.len() ==> {
                &&& (#[trigger] final(self).spec_instances()@[j]).0 == old(self).spec_instances()@[j].0
                &&& j != find_key(old(self).spec_instances()@, id.index) ==> final(self).spec_instances()@[j]
                    == old(self).spec_instances()@[j]
                &&& j == find_key(old(self).spec_instances()@, id.index) ==> commanded(
                    old(self).spec_instances()@[j].1,
                    final(self).spec_instances()@[j].1,
                    command,
                )
            },
    {
        self.instances.run_command(id, command)
    }

    /// Carries out `command` on every active instance of the sound `sound_id`.
    pub fn sound_instances_command(&mut self, sound_id: SoundId, command: InstanceCommand)
        requires
            old(self).wf(),
        ensures
            final(self).wf(),
            sound_instances_commanded(*old(self), *final(self), sound_id, command),
    {
        self.instances.run_command_for_sound(sound_id, command)
    }

    /// Carries out `command` on every active instance whose sound is in the
    /// group `group`.
    pub fn group_instances_command(&mut self, group: GroupId, command: InstanceCommand)
        requires
            old(self).wf(),
        ensures
            final(self).wf(),
            group_instances_commanded(*old(self), *final(self), group, command),
    {
        self.instances.run_command_for_group(&self.groups, group, command)
    }

    /// Adds a parameter resting at `value` (see [`Parameters::add`]).
    pub fn add_parameter(&mut self, id: ParameterId, value: i32)
        requires
            old(self).wf(),
        ensures
            final(self).wf(),
            final(self).spec_dt() == old(self).spec_dt(),
            final(self).spec_sequences() == old(self).spec_sequences(),
            final(self).spec_metronomes() == old(self).spec_metronomes(),
            final(self).spec_groups() == old(self).spec_groups(),
            final(self).spec_instances() == old(self).spec_instances(),
            final(self).spec_sounds() == old(self).spec_sounds(),
            final(self).spec_parameters().spec_capacity() == old(self).spec_parameters().spec_capacity(),
            ({
                let rest = without_key(old(self).spec_parameters()@, id.index);
                &&& rest.len() < old(self).spec_parameters().spec_capacity() ==> final(self).spec_parameters()@
                    == rest.push((id.index, Parameter::spec_new(value)))
                &&& rest.len() >= old(self).spec_parameters().spec_capacity() ==> final(self).spec_parameters()@
                    == rest
            }),
    {
        self.parameters.add(id, value)
    }

    /// Moves the parameter `id` to `value` (see [`Parameters::set`]).
    pub fn set_parameter(&mut self, id: ParameterId, value: i32, tween: Option<Tween>)
        requires
            old(self).wf(),
        ensures
            final(self).wf(),
            final(self).spec_dt() == old(self).spec_dt(),
            final(self).spec_mixer() == old(self).spec_mixer(),
            final(self).spec_sequences() == old(self).spec_sequences(),
            final(self).spec_metronomes() == old(self).spec_metronomes(),
            final(self).spec_groups() == old(self).spec_groups(),
            final(self).spec_instances() == old(self).spec_instances(),
            final(self).spec_sounds() == old(self).spec_sounds(),
            final(self).spec_parameters().spec_capacity() == old(self).spec_parameters().spec_capacity(),
            final(self).spec_parameters()@.len() == old(self).spec_parameters()@.len(),
            ({
                let i = find_key(old(self).spec_parameters()@, id.index);
                forall|j: int| 0 <= j < old(self).spec_parameters()@.len() ==> {
                    &&& (#[trigger] final(self).spec_parameters()@[j]).0 == old(self).spec_parameters()@[j].0
                    &&& j != i ==> final(self).spec_parameters()@[j] == old(self).spec_parameters()@[j]
                    &&& j == i ==> final(self).spec_parameters()@[j].1@ == set_model(
                        old(self).spec_parameters()@[j].1@,
                        value,
                        tween,
                    )
                }
            }),
    {
        self.parameters.set(id, value, tween)
    }

    /// Removes the parameter `id`; values following it keep their last value.
    pub fn remove_parameter(&mut self, id: ParameterId)
        requires
            old(self).wf(),
        ensures
            final(self).wf(),
            final(self).spec_dt() == old(self).spec_dt(),
            final(self).spec_sequences() == old(self).spec_sequences(),
            final(self).spec_metronomes() == old(self).spec_metronomes(),
            final(self).spec_groups() == old(self).spec_groups(),
            final(self).spec_instances() == old(self).spec_instances(),
            final(self).spec_sounds() == old(self).spec_sounds(),
            final(self).spec_parameters().spec_capacity() == old(self).spec_parameters().spec_capacity(),
            final(self).spec_parameters()@ == without_key(old(self).spec_parameters()@, id.index),
    {
        self.parameters.remove(id)
    }

    /// Carries out one command through the method of the same name.
    /// Whatever leaves a collection (removed, replaced or refused) is handed
    /// back, so that it can be dropped away from the audio thread.
    pub fn run_command(&mut self, command: Command) -> (r: Option<Released>)
        requires
            old(self).wf(),
        ensures
            final(self).wf(),
            final(self).spec_dt() == old(self).spec_dt(),
            final(self).spec_instances().spec_capacity() == old(self).spec_instances().spec_capacity(),
            final(self).spec_sounds().spec_capacity() == old(self).spec_sounds().spec_capacity(),
            final(self).spec_parameters().spec_capacity() == old(self).spec_parameters().spec_capacity(),
            command matches Command::RemoveSound(id) ==> {
                &&& final(self).spec_instances() == old(self).spec_instances()
                &&& final(self).spec_parameters() == old(self).spec_parameters()
                &&& final(self).spec_sounds()@ == without_key(old(self).spec_sounds()@, id.index)
                &&& old(self).spec_sounds().spec_get(id) is None ==> r is None
                &&& old(self).spec_sounds().spec_get(id) matches Some(s) ==> r matches Some(Released::Sound(t)) && t == s
            },
            command matches Command::AddSound(id, sound) ==> {
                let rest = without_key(old(self).spec_sounds()@, id.index);
                &&& final(self).spec_instances() == old(self).spec_instances()
                &&& final(self).spec_parameters() == old(self).spec_parameters()
                &&& rest.len() < old(self).spec_sounds().spec_capacity() ==> final(self).spec_sounds()@ == rest.push(
                    (id.index, sound),
                )
                &&& rest.len() >= old(self).spec_sounds().spec_capacity() ==> final(self).spec_sounds()@ == rest
            },
            command matches Command::Instance(id, c) ==> {
                &&& final(self).spec_sounds() == old(self).spec_sounds()
                &&& final(self).spec_parameters() == old(self).spec_parameters()
                &&& final(self).spec_instances()@.len() == old(self).spec_instances()@.len()
                &&& forall|j: int| 0 <= j < old(self).spec_instances()@.len() ==> {
                    &&& (#[trigger] final(self).spec_instances()@[j]).0 == old(self).spec_instances()@[j].0
                    &&& j != find_key(old(self).spec_instances()@, id.index) ==> final(self).spec_instances()@[j]
                        == old(self).spec_instances()@[j]
                    &&& j == find_key(old(self).spec_instances()@, id.index) ==> commanded(
                        old(self).spec_instances()@[j].1,
                        final(self).spec_instances()@[j].1,
                        c,
                    )
                }
            },
            command matches Command::AddParameter(id, value) ==> {
                let rest = without_key(old(self).spec_parameters()@, id.index);
                &&& final(self).spec_instances() == old(self).spec_instances()
                &&& final(self).spec_sounds() == old(self).spec_sounds()
                &&& rest.len() < old(self).spec_parameters().spec_capacity() ==> final(self).spec_parameters()@
                    == rest.push((id.index, Parameter::spec_new(value)))
                &&& rest.len() >= old(self).spec_parameters().spec_capacity() ==> final(self).spec_parameters()@
                    == rest
            },
            command matches Command::SetParameter(id, value, tween) ==> {
                let i = find_key(old(self).spec_parameters()@, id.index);
                &&& final(self).spec_instances() == old(self).spec_instances()
                &&& final(self).spec_sounds() == old(self).spec_sounds()
                &&& final(self).spec_parameters()@.len() == old(self).spec_parameters()@.len()
                &&& forall|j: int| 0 <= j < old(self).spec_parameters()@.len() ==> {
                    &&& (#[trigger] final(self).spec_parameters()@[j]).0 == old(self).spec_parameters()@[j].0
                    &&& j != i ==> final(self).spec_parameters()@[j] == old(self).spec_parameters()@[j]
                    &&& j == i ==> final(self).spec_parameters()@[j].1@ == set_model(
                        old(self).spec_parameters()@[j].1@,
                        value,
                        tween,
                    )
                }
            },
            command matches Command::Play(id, sound_id, settings, _) ==> r is None && played(
                *old(self),
                *final(self),
                id,
                sound_id,
                settings,
            ),
            command matches Command::InstancesOfSound(sound_id, c) ==> r is None && sound_instances_commanded(
                *old(self),
                *final(self),
                sound_id,
                c,
            ),
            command matches Command::InstancesOfGroup(group, c) ==> r is None && group_instances_commanded(
                *old(self),
                *final(self),
                group,
                c,
            ),
            command matches Command::AddGroup(id, group) ==> {
                let rest = without_key(old(self).spec_groups()@, id.index);
                &&& final(self).spec_instances() == old(self).spec_instances()
                &&& final(self).spec_sounds() == old(self).spec_sounds()
                &&& rest.len() < old(self).spec_groups().spec_capacity() ==> final(self).spec_groups()@ == rest.push(
                    (id.index, group),
                )
                &&& rest.len() >= old(self).spec_groups().spec_capacity() ==> final(self).spec_groups()@ == rest
            },
            command matches Command::RemoveGroup(id) ==> final(self).spec_groups()@ == without_key(
                old(self).spec_groups()@,
                id.index,
            ) && final(self).spec_instances() == old(self).spec_instances(),
            command matches Command::AddMetronome(id, m) ==> {
                let rest = without_key(old(self).spec_metronomes()@, id.index);
                &&& final(self).spec_instances() == old(self).spec_instances()
                &&& final(self).spec_parameters() == old(self).spec_parameters()
                &&& !m.wf() ==> final(self).spec_metronomes() == old(self).spec_metronomes()
                &&& m.wf() && rest.len() < old(self).spec_metronomes().spec_capacity() ==> final(self).spec_metronomes()@ == rest.push((id.index, m))
                &&& m.wf() && rest.len() >= old(self).spec_metronomes().spec_capacity() ==> final(self).spec_metronomes()@ == rest
            },
            command matches Command::RemoveMetronome(id) ==> final(self).spec_metronomes()@ == without_key(
                old(self).spec_metronomes()@,
                id.index,
            ) && final(self).spec_instances() == old(self).spec_instances(),
            command matches Command::Metronome(id, c) ==> {
                let ms = old(self).spec_metronomes()@;
                &&& final(self).spec_instances() == old(self).spec_instances()
                &&& final(self).spec_metronomes()@.len() == ms.len()
                &&& forall|j: int| 0 <= j < ms.len() ==> {
                    &&& (#[trigger] final(self).spec_metronomes()@[j]).0 == ms[j].0
                    &&& j != find_key(ms, id.index) ==> final(self).spec_metronomes()@[j] == ms[j]
                    &&& j == find_key(ms, id.index) ==> metronome_commanded(ms[j].1, final(self).spec_metronomes()@[j].1, c)
                }
            },
            command matches Command::StartSequence(id, q) ==> {
                let rest = without_key(old(self).spec_sequences()@, id.index);
                &&& final(self).spec_instances() == old(self).spec_instances()
                &&& !q.wf() ==> final(self).spec_sequences() == old(self).spec_sequences()
                &&& q.wf() && rest.len() < old(self).spec_sequences().spec_capacity() ==> final(self).spec_sequences()@ == rest.push((id.index, q))
                &&& q.wf() && rest.len() >= old(self).spec_sequences().spec_capacity() ==> final(self).spec_sequences()@ == rest
            },
            command matches Command::Sequence(id, c) ==> {
                let qs = old(self).spec_sequences()@;
                &&& final(self).spec_instances() == old(self).spec_instances()
                &&& final(self).spec_sequences()@.len() == qs.len()
                &&& forall|j: int| 0 <= j < qs.len() ==> {
                    &&& (#[trigger] final(self).spec_sequences()@[j]).0 == qs[j].0
                    &&& j != find_key(qs, id.index) ==> final(self).spec_sequences()@[j] == qs[j]
                    &&& j == find_key(qs, id.index) ==> final(self).spec_sequences()@[j].1.spec_model()
                        == sequence_commanded(qs[j].1.spec_model(), c)
                }
            },
            command matches Command::RemoveSequence(id) ==> final(self).spec_sequences()@ == without_key(
                old(self).spec_sequences()@,
                id.index,
            ) && final(self).spec_instances() == old(self).spec_instances(),
            command matches Command::AddSubTrack(id, t) ==> {
                let subs = old(self).spec_mixer().spec_model().0;
                let rest = without_key(subs, id.index);
                let refused = t.spec_parent() matches Some(p) && find_key(subs, p) == -1;
                &&& final(self).spec_instances() == old(self).spec_instances()
                &&& final(self).spec_mixer().spec_model().1 == old(self).spec_mixer().spec_model().1
                &&& refused ==> final(self).spec_mixer().spec_model() == old(self).spec_mixer().spec_model()
                &&& !refused && rest.len() < old(self).spec_mixer().spec_capacities().0 ==> final(self).spec_mixer().spec_model().0 == rest.push((id.index, t))
                &&& !refused && rest.len() >= old(self).spec_mixer().spec_capacities().0 ==> final(self).spec_mixer().spec_model().0 == rest
            },
            command matches Command::RemoveSubTrack(id) ==> final(self).spec_mixer().spec_model().0 == without_key(
                old(self).spec_mixer().spec_model().0,
                id.index,
            ) && final(self).spec_instances() == old(self).spec_instances(),
            command matches Command::AddSendTrack(id, t) ==> {
                let rest = without_key(old(self).spec_mixer().spec_model().1, id.index);
                &&& final(self).spec_instances() == old(self).spec_instances()
                &&& final(self).spec_mixer().spec_model().0 == old(self).spec_mixer().spec_model().0
                &&& rest.len() < old(self).spec_mixer().spec_capacities().1 ==> final(self).spec_mixer().spec_model().1
                    == rest.push((id.index, t))
                &&& rest.len() >= old(self).spec_mixer().spec_capacities().1 ==> final(self).spec_mixer().spec_model().1
                    == rest
            },
            command matches Command::RemoveSendTrack(id) ==> final(self).spec_mixer().spec_model().1 == without_key(
                old(self).spec_mixer().spec_model().1,
                id.index,
            ) && final(self).spec_instances() == old(self).spec_instances(),
            command matches Command::RemoveParameter(id) ==> {
                &&& final(self).spec_instances() == old(self).spec_instances()
                &&& final(self).spec_sounds() == old(self).spec_sounds()
                &&& final(self).spec_parameters()@ == without_key(old(self).spec_parameters()@, id.index)
            },
    {
        match command {
            Command::AddSound(id, sound) => match self.add_sound(id, sound) {
                Some(sound) => Some(Released::Sound(sound)),
                None => None,
            },
            Command::RemoveSound(id) => match self.remove_sound(id) {
                Some(sound) => Some(Released::Sound(sound)),
                None => None,
            },
            Command::Play(id, sound_id, settings, controller) => {
                self.play(id, sound_id, settings, controller);
                None
            },
            Command::Instance(id, command) => {
                self.instance_command(id, command);
                None
            },
            Command::InstancesOfSound(sound_id, command) => {
                self.sound_instances_command(sound_id, command);
                None
            },
            Command::AddParameter(id, value) => {
                self.add_parameter(id, value);
                None
            },
            Command::SetParameter(id, value, tween) => {
                self.set_parameter(id, value, tween);
                None
            },
            Command::RemoveParameter(id) => {
                self.remove_parameter(id);
                None
            },
            Command::InstancesOfGroup(group, command) => {
                self.group_instances_command(group, command);
                None
            },
            Command::AddGroup(id, group) => match self.groups.add(id, group) {
                Some(group) => Some(Released::Group(group)),
                None => None,
            },
            Command::RemoveGroup(id) => match self.groups.remove(id) {
                Some(group) => Some(Released::Group(group)),
                None => None,
            },
            Command::StartSequence(id, sequence) => {
                if sequence.is_wf() {
                    match self.sequences.add(id, sequence) {
                        Some(sequence) => Some(Released::Sequence(sequence)),
                        None => None,
                    }
                } else {
                    Some(Released::Sequence(sequence))
                }
            },
            Command::Sequence(id, command) => {
                self.sequences.run_command(id, command);
                None
            },
            Command::RemoveSequence(id) => match self.sequences.remove(id) {
                Some(sequence) => Some(Released::Sequence(sequence)),
                None => None,
            },
            Command::AddSubTrack(id, track) => match self.mixer.add_sub_track(id, track) {
                Some(track) => Some(Released::SubTrack(track)),
                None => None,
            },
            Command::RemoveSubTrack(id) => match self.mixer.remove_sub_track(id) {
                Some(track) => Some(Released::SubTrack(track)),
                None => None,
            },
            Command::AddSendTrack(id, track) => match self.mixer.add_send_track(id, track) {
                Some(track) => Some(Released::SendTrack(track)),
                None => None,
            },
            Command::RemoveSendTrack(id) => match self.mixer.remove_send_track(id) {
                Some(track) => Some(Released::SendTrack(track)),
                None => None,
            },
            Command::AddMetronome(id, metronome) => {
                if metronome.is_wf() {
                    match self.metronomes.add(id, metronome) {
                        Some(metronome) => Some(Released::Metronome(metronome)),
                        None => None,
                    }
                } else {
                    Some(Released::Metronome(metronome))
                }
            },
            Command::RemoveMetronome(id) => match self.metronomes.remove(id) {
                Some(metronome) => Some(Released::Metronome(metronome)),
                None => None,
            },
            Command::Metronome(id, command) => {
                self.metronomes.run_command(id, command);
                None
            },
        }
    }

    /// Takes the oldest waiting interval event of the metronome `id`, if any.
    pub fn pop_metronome_event(&mut self, id: MetronomeId) -> (r: Option<i64>)
        requires
            old(self).wf(),
        ensures
            final(self).wf(),
            final(self).spec_dt() == old(self).spec_dt(),
            final(self).spec_sounds() == old(self).spec_sounds(),
            final(self).spec_instances() == old(self).spec_instances(),
            final(self).spec_parameters() == old(self).spec_parameters(),
            find_key(old(self).spec_metronomes()@, id.index) == -1 ==> r is None,
            find_key(old(self).spec_metronomes()@, id.index) >= 0 ==> {
                let events = old(self).spec_metronomes()@[find_key(old(self).spec_metronomes()@, id.index)].1.spec_events();
                &&& events.len() == 0 ==> r is None
                &&& events.len() > 0 ==> r == Some(events[0])
            },
    {
        self.metronomes.pop_event(id)
    }

    /// Takes the oldest waiting custom event of the sequence `id`, if any.
    pub fn pop_sequence_event(&mut self, id: SequenceInstanceId) -> (r: Option<u64>)
        requires
            old(self).wf(),
        ensures
            final(self).wf(),
            final(self).spec_dt() == old(self).spec_dt(),
            final(self).spec_sounds() == old(self).spec_sounds(),
            final(self).spec_instances() == old(self).spec_instances(),
            final(self).spec_parameters() == old(self).spec_parameters(),
            ({
                let seqs = old(self).spec_sequences()@;
                let i = find_key(seqs, id.index);
                &&& i == -1 ==> r is None
                &&& i >= 0 ==> {
                    let m = seqs[i].1.spec_model();
                    &&& m.4.len() == 0 ==> r is None && final(self).spec_sequences()@[i].1.spec_model() == m
                    &&& m.4.len() > 0 ==> r == Some(m.4[0]) && final(self).spec_sequences()@[i].1.spec_model() == (
                        m.0,
                        m.1,
                        m.2,
                        m.3,
                        m.4.drop_first(),
                    )
                }
            }),
    {
        self.sequences.pop_event(id)
    }

    /// Stops at once every instance whose handle asked for a stop.
    pub fn update_from_controllers(&mut self)
        requires
            old(self).wf(),
        ensures
            final(self).wf(),
            final(self).spec_dt() == old(self).spec_dt(),
            final(self).spec_sounds() == old(self).spec_sounds(),
            final(self).spec_parameters() == old(self).spec_parameters(),
            final(self).spec_instances().spec_capacity() == old(self).spec_instances().spec_capacity(),
            final(self).spec_instances()@.len() == old(self).spec_instances()@.len(),
            forall|j: int| 0 <= j < old(self).spec_instances()@.len() ==> {
                &&& (#[trigger] final(self).spec_instances()@[j]).0 == old(self).spec_instances()@[j].0
                &&& final(self).spec_instances()@[j].1.spec_state() == old(self).spec_instances()@[j].1.spec_state()
                    || final(self).spec_instances()@[j].1.spec_state() == InstanceState::Stopped
            },
    {
        self.instances.update_from_controllers()
    }

    fn apply_sequence_action(&mut self, action: SequenceAction)
        requires
            old(self).wf(),
        ensures
            final(self).wf(),
            action is Nothing ==> final(self).spec_instances() == old(self).spec_instances()
                && final(self).spec_parameters() == old(self).spec_parameters()
                && final(self).spec_sounds() == old(self).spec_sounds(),
            final(self).spec_dt() == old(self).spec_dt(),
            final(self).spec_mixer() == old(self).spec_mixer(),
            final(self).spec_groups() == old(self).spec_groups(),
            final(self).spec_sequences() == old(self).spec_sequences(),
            final(self).spec_metronomes() == old(self).spec_metronomes(),
            final(self).spec_instances().spec_capacity() == old(self).spec_instances().spec_capacity(),
            final(self).spec_sounds().spec_capacity() == old(self).spec_sounds().spec_capacity(),
            final(self).spec_parameters().spec_capacity() == old(self).spec_parameters().spec_capacity(),
    {
        match action {
            SequenceAction::PlaySound(sound, settings) => {
                let id = InstanceId::new(self.next_sequence_instance);
                if self.next_sequence_instance < u64::MAX {
                    self.next_sequence_instance = self.next_sequence_instance + 1;
                } else {
                    self.next_sequence_instance = SEQUENCE_INSTANCE_BASE;
                }
                let controller = self.sequence_controller.clone();
                self.play(id, sound, settings, controller);
            },
            SequenceAction::SetParameter(id, value, tween) => {
                self.set_parameter(id, value, tween);
            },
            SequenceAction::Nothing => {},
        }
    }

    /// Steps every running sequence for one tick: its waits run down, then
    /// it takes steps, carrying out what they ask, until it blocks (at most
    /// one more step than it has, so that a loop without waits cannot hold
    /// up the tick).
    pub fn update_sequences(&mut self)
        requires
            old(self).wf(),
        ensures
            final(self).wf(),
            final(self).spec_dt() == old(self).spec_dt(),
            final(self).spec_metronomes() == old(self).spec_metronomes(),
            final(self).spec_mixer() == old(self).spec_mixer(),
            final(self).spec_groups() == old(self).spec_groups(),
            sequences_ticked(old(self).spec_sequences()@, final(self).spec_sequences()@, old(self).spec_metronomes(), old(self).spec_dt() as int),
            final(self).spec_sequences().spec_capacity() == old(self).spec_sequences().spec_capacity(),
            final(self).spec_instances().spec_capacity() == old(self).spec_instances().spec_capacity(),
            final(self).spec_sounds().spec_capacity() == old(self).spec_sounds().spec_capacity(),
            final(self).spec_parameters().spec_capacity() == old(self).spec_parameters().spec_capacity(),
            no_sequence_acts(old(self).spec_sequences()@, old(self).spec_metronomes(), old(self).spec_dt() as int)
                ==> final(self).spec_instances() == old(self).spec_instances() && final(self).spec_parameters()
                == old(self).spec_parameters() && final(self).spec_sounds() == old(self).spec_sounds(),
    {
        let ghost old_seqs = self.sequences@;
        let ghost ms = self.metronomes;
        let n = self.sequences.len();
        let mut i: usize = 0;
        while i < n
            invariant
                self.wf(),
                self.spec_dt() == old(self).spec_dt(),
                self.spec_metronomes() == old(self).spec_metronomes(),
                ms == old(self).spec_metronomes(),
                self.spec_mixer() == old(self).spec_mixer(),
                self.spec_groups() == old(self).spec_groups(),
                old_seqs == old(self).spec_sequences()@,
                self.spec_sequences().spec_capacity() == old(self).spec_sequences().spec_capacity(),
                self.spec_sequences()@.len() == n,
                n == old_seqs.len(),
                i <= n,
                forall|j: int| 0 <= j < i ==> (#[trigger] self.spec_sequences()@[j]).0 == old_seqs[j].0
                    && sequence_ticked(old_seqs[j].1, self.spec_sequences()@[j].1, old(self).spec_dt() as int, sequence_passed(ms, old_seqs[j].1)),
                forall|j: int| i <= j < n ==> #[trigger] self.spec_sequences()@[j] == old_seqs[j],
                self.spec_instances().spec_capacity() == old(self).spec_instances().spec_capacity(),
                self.spec_sounds().spec_capacity() == old(self).spec_sounds().spec_capacity(),
                self.spec_parameters().spec_capacity() == old(self).spec_parameters().spec_capacity(),
                (forall|j: int| 0 <= j < i ==> !tick_acts(#[trigger] old_seqs[j].1, old(self).spec_dt() as int, sequence_passed(ms, old_seqs[j].1)))
                    ==> self.spec_instances() == old(self).spec_instances() && self.spec_parameters()
                    == old(self).spec_parameters() && self.spec_sounds() == old(self).spec_sounds(),
            decreases n - i,
        {
            let (metronome, interval, num_steps) = self.sequences.wait_info(i);
            let passed = match metronome {
                Some(m) => match interval {
                    Some(iv) => self.metronomes.interval_passed(m, iv),
                    None => false,
                },
                None => false,
            };
            proof {
                let sq = old_seqs[i as int].1;
                assert(self.spec_sequences()@[i as int] == old_seqs[i as int]);
                assert(metronome == sq.spec_metronome());
                assert(self.metronomes == ms);
                if metronome is None {
                    assert(!sequence_passed(ms, sq));
                } else if interval is None {
                    assert(!(sq.spec_model().2 is Interval));
                    assert(!sequence_passed(ms, sq));
                } else {
                    assert(sq.spec_model().2 == Waiting::Interval(interval->0));
                    let mid = metronome->0;
                    let k = find_key(ms@, mid.index);
                    crate::vec_map::lemma_find_key(ms@, mid.index);
                    if k >= 0 {
                        assert(passed == crosses(ms@[k].1.spec_previous(), ms@[k].1.spec_progress(), interval->0 as int, ms@[k].1.spec_per_beat()));
                    } else {
                        assert(!passed);
                    }
                }
            }
            assert(passed == sequence_passed(ms, old_seqs[i as int].1));
            self.sequences.wait_at(i, self.dt as u64, passed);
            let ghost m0 = self.sequences@[i as int].1.spec_model();
            let budget: usize = if num_steps < usize::MAX {
                num_steps + 1
            } else {
                num_steps
            };
            let mut k: usize = 0;
            let mut done = false;
            let ghost mut acted = false;
            while k < budget && !done
                invariant
                    self.wf(),
                    self.spec_dt() == old(self).spec_dt(),
                    self.spec_metronomes() == old(self).spec_metronomes(),
                    self.spec_mixer() == old(self).spec_mixer(),
                    self.spec_groups() == old(self).spec_groups(),
                    self.spec_sequences().spec_capacity() == old(self).spec_sequences().spec_capacity(),
                    self.spec_sequences()@.len() == n,
                    i < n,
                    k <= budget,
                    budget == step_budget(old_seqs[i as int].1.spec_steps().len() as int),
                    m0 == waited(old_seqs[i as int].1.spec_model(), old(self).spec_dt() as int, sequence_passed(ms, old_seqs[i as int].1)),
                    self.spec_sequences()@[i as int].0 == old_seqs[i as int].0,
                    self.spec_sequences()@[i as int].1.spec_steps() == old_seqs[i as int].1.spec_steps(),
                    self.spec_sequences()@[i as int].1.spec_metronome() == old_seqs[i as int].1.spec_metronome(),
                    self.spec_sequences()@[i as int].1.spec_event_capacity() == old_seqs[i as int].1.spec_event_capacity(),
                    run_steps(
                        self.spec_sequences()@[i as int].1.spec_model(),
                        old_seqs[i as int].1.spec_steps(),
                        old_seqs[i as int].1.spec_event_capacity(),
                        (budget - k) as nat,
                    ) == run_steps(m0, old_seqs[i as int].1.spec_steps(), old_seqs[i as int].1.spec_event_capacity(), budget as nat),
                    done ==> blocked(self.spec_sequences()@[i as int].1.spec_model()),
                    !steps_act(m0, old_seqs[i as int].1.spec_steps(), old_seqs[i as int].1.spec_event_capacity(), budget as nat)
                        ==> !acted && !steps_act(
                        self.spec_sequences()@[i as int].1.spec_model(),
                        old_seqs[i as int].1.spec_steps(),
                        old_seqs[i as int].1.spec_event_capacity(),
                        (budget - k) as nat,
                    ),
                    (forall|j: int| 0 <= j < i ==> !tick_acts(#[trigger] old_seqs[j].1, old(self).spec_dt() as int, sequence_passed(ms, old_seqs[j].1)))
                        && !acted ==> self.spec_instances() == old(self).spec_instances() && self.spec_parameters()
                        == old(self).spec_parameters() && self.spec_sounds() == old(self).spec_sounds(),
                    forall|j: int| 0 <= j < i ==> (#[trigger] self.spec_sequences()@[j]).0 == old_seqs[j].0
                        && sequence_ticked(old_seqs[j].1, self.spec_sequences()@[j].1, old(self).spec_dt() as int, sequence_passed(ms, old_seqs[j].1)),
                    forall|j: int| i < j < n ==> #[trigger] self.spec_sequences()@[j] == old_seqs[j],
                    self.spec_instances().spec_capacity() == old(self).spec_instances().spec_capacity(),
                    self.spec_sounds().spec_capacity() == old(self).spec_sounds().spec_capacity(),
                    self.spec_parameters().spec_capacity() == old(self).spec_parameters().spec_capacity(),
                decreases budget - k,
            {
                let ghost cur = self.spec_sequences()@[i as int].1.spec_model();
                let (action, blocked_now) = self.sequences.step_at(i);
                proof {
                    let steps = old_seqs[i as int].1.spec_steps();
                    let cap = old_seqs[i as int].1.spec_event_capacity();
                    let n = (budget - k) as nat;
                    assert(n > 0);
                    if !blocked(cur) {
                        assert(steps_act(cur, steps, cap, n) == ((cur.0 < steps.len() && (steps[cur.0] is PlaySound
                            || steps[cur.0] is SetParameter)) || steps_act(stepped(cur, steps, cap), steps, cap, (n - 1) as nat)));
                    } else {
                        assert(!steps_act(cur, steps, cap, n));
                        assert(!steps_act(cur, steps, cap, (n - 1) as nat));
                    }
                    let newm = self.spec_sequences()@[i as int].1.spec_model();
                    if !steps_act(cur, steps, cap, n) {
                        assert(action is Nothing);
                        assert(!steps_act(newm, steps, cap, (n - 1) as nat));
                    }
                    if !(action is Nothing) {
                        acted = true;
                    }
                }
                self.apply_sequence_action(action);
                done = blocked_now;
                k = k + 1;
            }
            i = i + 1;
        }
    }

    /// Advances the controls by one tick: the parameters' tweens, then the
    /// metronomes, then the mixer's volumes, which follow the parameters.
    pub fn advance_controls(&mut self)
        requires
            old(self).wf(),
        ensures
            controls_advanced(*old(self), *final(self)),
    {
        self.parameters.update(self.dt);
        self.metronomes.update(self.dt, &self.parameters);
        self.mixer.update_volumes(&self.parameters);
    }

    /// Mixes the instances for one tick: every instance adds what it
    /// contributes to its track and advances (stopped ones leave), and the
    /// mixer routes the tracks into the output frame.
    pub fn render(&mut self) -> (r: Frame)
        requires
            old(self).wf(),
        ensures
            rendered(*old(self), *final(self), r),
    {
        self.instances.process(self.dt, &self.parameters, &mut self.mixer);
        self.mixer.route()
    }

    /// One tick: the controls advance (parameters, metronomes, mixer
    /// volumes), the sequences step, the instances play into the mixer and
    /// advance (stopped ones leave), the mixer gives the output frame, and
    /// sound cooldowns run down.
    pub fn process(&mut self) -> (r: Frame)
        requires
            old(self).wf(),
        ensures
            final(self).wf(),
            exists|a: Backend, b: Backend, c: Backend|
                {
                    &&& controls_advanced(*old(self), a)
                    &&& sequences_advanced(a, b)
                    &&& rendered(b, c, r)
                    &&& cooled_down(c, *final(self))
                },
            forall|j: int| 0 <= j < final(self).spec_instances()@.len()
                ==> (#[trigger] final(self).spec_instances()@[j]).1.spec_state() != InstanceState::Stopped,
    {
        self.advance_controls();
        let ghost a = *self;
        self.update_sequences();
        let ghost b = *self;
        let out = self.render();
        let ghost c = *self;
        self.sounds.update(self.dt);
        proof {
            assert(controls_advanced(*old(self), a));
            assert(sequences_advanced(a, b));
            assert(rendered(b, c, out));
            assert(cooled_down(c, *self));
        }
        out
    }
}

/// How starting an instance (see [`Backend::play`]) takes the backend `old`
/// to `new`.
pub open spec fn played(old: Backend, new: Backend, id: InstanceId, sound_id: SoundId, settings: InstanceSettings) -> bool {
    &&& new.spec_dt() == old.spec_dt()
    &&& new.spec_mixer() == old.spec_mixer()
    &&& new.spec_sequences() == old.spec_sequences()
    &&& new.spec_metronomes() == old.spec_metronomes()
    &&& new.spec_groups() == old.spec_groups()
    &&& new.spec_parameters() == old.spec_parameters()
    &&& new.spec_instances().spec_capacity() == old.spec_instances().spec_capacity()
    &&& new.spec_sounds().spec_capacity() == old.spec_sounds().spec_capacity()
    &&& new.spec_sounds()@.len() == old.spec_sounds()@.len()
    &&& match old.spec_sounds().spec_get(sound_id) {
        Some(sound) => if sound.spec_cooldown_timer() == 0 {
            exists|instance: Instance|
                {
                    &&& instance.spec_sound_id() == sound_id
                    &&& instance.spec_state() == InstanceState::Playing
                    &&& instance.spec_data() == sound.spec_data()
                    &&& instance.spec_position() == clamp_position(
                        if settings.reverse {
                            clamp_position(sound.spec_data().spec_duration() - settings.start_position)
                        } else {
                            settings.start_position as int
                        },
                    )
                    &&& instance.spec_reverse() == settings.reverse
                    &&& instance.spec_loop_start() == match settings.loop_start.spec_into_option(
                        sound.spec_default_loop_start(),
                    ) {
                        Some(l) => Some(clamp_position(l as int) as i64),
                        None => None,
                    }
                    &&& instance.spec_volume().spec_setting() == settings.volume
                    &&& instance.spec_playback_rate().spec_setting() == settings.playback_rate
                    &&& instance.spec_panning().spec_setting() == settings.panning
                    &&& instance.spec_groups() == sound.spec_groups()
                    &&& instance.spec_track() == settings.track
                    &&& instance.spec_fade() == match settings.fade_in_tween {
                        Some(tw) => (0int, Some((0int, UNIT as int, 0int, tw.duration as int))),
                        None => (UNIT as int, None::<(int, int, int, int)>),
                    }
                    &&& new.spec_sounds().spec_get(sound_id) matches Some(t)
                        && t.spec_cooldown_timer() == match sound.spec_cooldown() {
                        Some(c) => c,
                        None => 0u32,
                    }
                    &&& forall|j: int| 0 <= j < old.spec_sounds()@.len() && j != find_key(
                        old.spec_sounds()@,
                        sound_id.index,
                    ) ==> #[trigger] new.spec_sounds()@[j] == old.spec_sounds()@[j]
                    &&& new.spec_instances()@ == pushed(
                        old.spec_instances()@,
                        old.spec_instances().spec_capacity(),
                        id.index,
                        instance,
                    )
                }
        } else {
            new.spec_instances() == old.spec_instances() && new.spec_sounds()
                == old.spec_sounds()
        },
        None => new.spec_instances() == old.spec_instances() && new.spec_sounds()
            == old.spec_sounds(),
    }
}

/// How a command to every instance of a sound (see
/// [`Backend::sound_instances_command`]) takes the backend `old` to `new`.
pub open spec fn sound_instances_commanded(old: Backend, new: Backend, sound_id: SoundId, command: InstanceCommand) -> bool {
    &&& new.spec_dt() == old.spec_dt()
    &&& new.spec_sequences() == old.spec_sequences()
    &&& new.spec_metronomes() == old.spec_metronomes()
    &&& new.spec_groups() == old.spec_groups()
    &&& new.spec_sounds() == old.spec_sounds()
    &&& new.spec_parameters() == old.spec_parameters()
    &&& new.spec_instances().spec_capacity() == old.spec_instances().spec_capacity()
    &&& new.spec_instances()@.len() == old.spec_instances()@.len()
    &&& forall|j: int| 0 <= j < old.spec_instances()@.len() ==> {
        &&& (#[trigger] new.spec_instances()@[j]).0 == old.spec_instances()@[j].0
        &&& old.spec_instances()@[j].1.spec_sound_id() != sound_id
            ==> new.spec_instances()@[j] == old.spec_instances()@[j]
        &&& old.spec_instances()@[j].1.spec_sound_id() == sound_id ==> commanded(
            old.spec_instances()@[j].1,
            new.spec_instances()@[j].1,
            command,
        )
    }
}

/// How a command to every instance in a group (see
/// [`Backend::group_instances_command`]) takes the backend `old` to `new`.
pub open spec fn group_instances_commanded(old: Backend, new: Backend, group: GroupId, command: InstanceCommand) -> bool {
    &&& new.spec_dt() == old.spec_dt()
    &&& new.spec_sequences() == old.spec_sequences()
    &&& new.spec_metronomes() == old.spec_metronomes()
    &&& new.spec_sounds() == old.spec_sounds()
    &&& new.spec_parameters() == old.spec_parameters()
    &&& new.spec_groups() == old.spec_groups()
    &&& new.spec_instances().spec_capacity() == old.spec_instances().spec_capacity()
    &&& new.spec_instances()@.len() == old.spec_instances()@.len()
    &&& forall|j: int| 0 <= j < old.spec_instances()@.len() ==> {
        let before = old.spec_instances()@[j].1;
        let member = in_group(old.spec_groups()@, before.spec_groups(), group.index);
        &&& (#[trigger] new.spec_instances()@[j]).0 == old.spec_instances()@[j].0
        &&& !member ==> new.spec_instances()@[j] == old.spec_instances()@[j]
        &&& member ==> commanded(before, new.spec_instances()@[j].1, command)
    }
}

/// The frame a backend in state `b` renders: its instances' contributions,
/// fed into its mixer and routed.
pub open spec fn render_output(b: Backend) -> Frame {
    mixer_output(feed(b.spec_mixer().spec_model(), b.spec_instances()@), b.spec_mixer().spec_main_volume().spec_value())
}

/// Whether `new` is `old` after its controls advanced one tick: every
/// parameter steps, every metronome updates against the stepped parameters,
/// and the mixer's volumes follow them; nothing else changes.
pub open spec fn controls_advanced(old: Backend, new: Backend) -> bool {
    &&& new.wf()
    &&& new.spec_dt() == old.spec_dt()
    &&& new.spec_sounds() == old.spec_sounds()
    &&& new.spec_instances() == old.spec_instances()
    &&& new.spec_sequences() == old.spec_sequences()
    &&& new.spec_groups() == old.spec_groups()
    &&& new.spec_parameters().spec_capacity() == old.spec_parameters().spec_capacity()
    &&& new.spec_parameters()@.len() == old.spec_parameters()@.len()
    &&& forall|j: int| 0 <= j < old.spec_parameters()@.len() ==> {
        &&& (#[trigger] new.spec_parameters()@[j]).0 == old.spec_parameters()@[j].0
        &&& new.spec_parameters()@[j].1@ == parameter_step(old.spec_parameters()@[j].1@, old.spec_dt() as int).0
    }
    &&& new.spec_metronomes().spec_capacity() == old.spec_metronomes().spec_capacity()
    &&& new.spec_metronomes()@.len() == old.spec_metronomes()@.len()
    &&& forall|j: int| 0 <= j < old.spec_metronomes()@.len() ==> (#[trigger] new.spec_metronomes()@[j]).0
        == old.spec_metronomes()@[j].0 && metronome_updated(
        old.spec_metronomes()@[j].1,
        new.spec_metronomes()@[j].1,
        old.spec_dt(),
        &new.spec_parameters(),
    )
    &&& mixer_refreshed(old.spec_mixer(), new.spec_mixer(), &new.spec_parameters())
}

/// Whether `new` is `old` after its sequences stepped one tick (see
/// [`Backend::update_sequences`]).
pub open spec fn sequences_advanced(old: Backend, new: Backend) -> bool {
    &&& new.wf()
    &&& new.spec_dt() == old.spec_dt()
    &&& new.spec_metronomes() == old.spec_metronomes()
    &&& new.spec_mixer() == old.spec_mixer()
    &&& new.spec_groups() == old.spec_groups()
    &&& sequences_ticked(old.spec_sequences()@, new.spec_sequences()@, old.spec_metronomes(), old.spec_dt() as int)
    &&& new.spec_sequences().spec_capacity() == old.spec_sequences().spec_capacity()
    &&& new.spec_instances().spec_capacity() == old.spec_instances().spec_capacity()
    &&& new.spec_sounds().spec_capacity() == old.spec_sounds().spec_capacity()
    &&& new.spec_parameters().spec_capacity() == old.spec_parameters().spec_capacity()
    &&& no_sequence_acts(old.spec_sequences()@, old.spec_metronomes(), old.spec_dt() as int) ==> new.spec_instances()
        == old.spec_instances() && new.spec_parameters() == old.spec_parameters() && new.spec_sounds()
        == old.spec_sounds()
}

/// Whether `new` is `old` after rendering the frame `r`: `r` is what `old`
/// renders, every instance advanced and the stopped ones left, and the
/// mixer's inputs were routed and cleared.
pub open spec fn rendered(old: Backend, new: Backend, r: Frame) -> bool {
    let m1 = route_subs(
        feed(old.spec_mixer().spec_model(), old.spec_instances()@),
        feed(old.spec_mixer().spec_model(), old.spec_instances()@).0.len(),
    );
    let m2 = route_sends(m1, m1.1.len());
    &&& new.wf()
    &&& r == render_output(old)
    &&& new.spec_dt() == old.spec_dt()
    &&& new.spec_sounds() == old.spec_sounds()
    &&& new.spec_parameters() == old.spec_parameters()
    &&& new.spec_metronomes() == old.spec_metronomes()
    &&& new.spec_sequences() == old.spec_sequences()
    &&& new.spec_groups() == old.spec_groups()
    &&& new.spec_instances().spec_capacity() == old.spec_instances().spec_capacity()
    &&& pool_ticked(old.spec_instances()@, new.spec_instances()@, old.spec_dt(), &old.spec_parameters())
    &&& forall|j: int| 0 <= j < new.spec_instances()@.len() ==> (#[trigger] new.spec_instances()@[j]).1.spec_state()
        != InstanceState::Stopped
    &&& new.spec_mixer().spec_main_volume() == old.spec_mixer().spec_main_volume()
    &&& new.spec_mixer().spec_capacities() == old.spec_mixer().spec_capacities()
    &&& new.spec_mixer().spec_model() == (m2.0, m2.1, Frame::spec_silent())
}

/// Whether `new` is `old` with `dt` ticks of every sound's cooldown passed,
/// nothing else changed.
pub open spec fn cooled_down(old: Backend, new: Backend) -> bool {
    &&& new.wf()
    &&& new.spec_dt() == old.spec_dt()
    &&& new.spec_instances() == old.spec_instances()
    &&& new.spec_parameters() == old.spec_parameters()
    &&& new.spec_metronomes() == old.spec_metronomes()
    &&& new.spec_sequences() == old.spec_sequences()
    &&& new.spec_groups() == old.spec_groups()
    &&& new.spec_mixer() == old.spec_mixer()
    &&& new.spec_sounds().spec_capacity() == old.spec_sounds().spec_capacity()
    &&& sounds_counted_down(old.spec_sounds()@, new.spec_sounds()@, old.spec_dt())
}

/// Every fixed-capacity collection of a well-formed backend holds no more
/// than its capacity.
pub proof fn collections_within_capacity(b: Backend)
    requires
        b.wf(),
    ensures
        b.spec_sounds()@.len() <= b.spec_sounds().spec_capacity(),
        b.spec_instances()@.len() <= b.spec_instances().spec_capacity(),
        b.spec_parameters()@.len() <= b.spec_parameters().spec_capacity(),
        b.spec_metronomes()@.len() <= b.spec_metronomes().spec_capacity(),
        b.spec_groups()@.len() <= b.spec_groups().spec_capacity(),
        b.spec_sequences()@.len() <= b.spec_sequences().spec_capacity(),
{
}

/// Two backends whose instance pools and mixers agree render the same frame,
/// whatever sounds are loaded: removing a sound, which leaves the pool as it
/// is, does not change what its instances play.
pub proof fn output_ignores_sounds(a: Backend, b: Backend)
    requires
        a.spec_instances()@ == b.spec_instances()@,
        a.spec_mixer() == b.spec_mixer(),
    ensures
        mixer_output(feed(a.spec_mixer().spec_model(), a.spec_instances()@), a.spec_mixer().spec_main_volume().spec_value())
            == mixer_output(
            feed(b.spec_mixer().spec_model(), b.spec_instances()@),
            b.spec_mixer().spec_main_volume().spec_value(),
        ),
{
}

impl Default for AudioManagerSettings {
    fn default() -> (r: AudioManagerSettings)
        ensures
            r.num_commands == 100 && r.num_sounds == 100,
            r.num_instances == 100 && r.num_parameters == 100,
            r.num_metronomes == 5,
            r.num_groups == 100,
            r.num_sequences == 25,
            r.num_sub_tracks == 100 && r.num_send_tracks == 16,
    {
        AudioManagerSettings::new()
    }
}

} // verus!
