use std::sync::Arc;

use kira::backend::{AudioManagerSettings, Backend, Command};
use kira::frame::{Frame, UNIT};
use kira::group::{Group, GroupId, Groups};
use kira::id::{InstanceId, SoundId};
use kira::instance::{InstanceCommand, InstanceController, InstanceState, PauseInstanceSettings};
use kira::settings::InstanceSettings;
use kira::sound::{Sound, SoundSettings, StaticSoundData};

#[test]
fn membership_follows_parents() {
    let mut groups = Groups::new(10);
    let music = GroupId::new(1);
    let drums = GroupId::new(2);
    let other = GroupId::new(3);
    groups.add(music, Group::new(&vec![]));
    groups.add(drums, Group::new(&vec![music]));
    groups.add(other, Group::new(&vec![]));
    assert!(groups.contains(&vec![2], drums));
    assert!(groups.contains(&vec![2], music));
    assert!(!groups.contains(&vec![2], other));
    assert!(!groups.contains(&vec![1], drums));
    assert!(!groups.contains(&vec![], music));
}

#[test]
fn membership_terminates_on_cycles() {
    let mut groups = Groups::new(10);
    let a = GroupId::new(1);
    let b = GroupId::new(2);
    groups.add(a, Group::new(&vec![b]));
    groups.add(b, Group::new(&vec![a]));
    assert!(groups.contains(&vec![1], b));
    assert!(!groups.contains(&vec![1], GroupId::new(7)));
}

#[test]
fn pausing_a_group_pauses_its_instances_only() {
    let mut b = Backend::new(AudioManagerSettings::new());
    let music = GroupId::new(1);
    let drums = GroupId::new(2);
    b.run_command(Command::AddGroup(music, Group::new(&vec![])));
    b.run_command(Command::AddGroup(drums, Group::new(&vec![music])));
    let data = Arc::new(StaticSoundData::new(vec![Frame::from_mono(UNIT / 2); 100]));
    let tagged = Sound::new(data.clone(), SoundSettings::new()).in_groups(&vec![drums]);
    let plain = Sound::new(data, SoundSettings::new());
    b.run_command(Command::AddSound(SoundId::new(0), tagged));
    b.run_command(Command::AddSound(SoundId::new(1), plain));
    let in_group = InstanceId::new(0);
    let outside = InstanceId::new(1);
    b.run_command(Command::Play(in_group, SoundId::new(0), InstanceSettings::new(), Arc::new(InstanceController::new())));
    b.run_command(Command::Play(outside, SoundId::new(1), InstanceSettings::new(), Arc::new(InstanceController::new())));
    b.process();
    b.run_command(Command::InstancesOfGroup(
        music,
        InstanceCommand::Pause(PauseInstanceSettings { fade_tween: None }),
    ));
    assert_eq!(b.instance_state(in_group), Some(InstanceState::Paused(UNIT as i64)));
    assert_eq!(b.instance_state(outside), Some(InstanceState::Playing));
}
