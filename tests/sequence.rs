use std::sync::Arc;

use kira::backend::{AudioManagerSettings, Backend, Command};
use kira::frame::{Frame, UNIT};
use kira::id::SoundId;
use kira::metronome::{Metronome, MetronomeCommand, MetronomeId, MetronomeSettings};
use kira::sequence::{SequenceCommand, SequenceInstance, SequenceInstanceId, SequenceStep};
use kira::settings::InstanceSettings;
use kira::sound::{Sound, SoundSettings, StaticSoundData};
use kira::value::Value;

fn backend_with_sound() -> (Backend, SoundId) {
    let mut b = Backend::new(AudioManagerSettings::new());
    let s = SoundId::new(0);
    let data = Arc::new(StaticSoundData::new(vec![Frame::from_mono(UNIT / 2); 1000]));
    b.run_command(Command::AddSound(s, Sound::new(data, SoundSettings::new())));
    (b, s)
}

#[test]
fn sequence_waits_ticks_between_plays() {
    let (mut b, s) = backend_with_sound();
    let steps = vec![
        SequenceStep::PlaySound(s, InstanceSettings::new()),
        SequenceStep::Wait(5),
        SequenceStep::PlaySound(s, InstanceSettings::new()),
    ];
    let id = SequenceInstanceId::new(0);
    b.run_command(Command::StartSequence(id, SequenceInstance::new(steps, None, 4)));
    b.process();
    assert_eq!(b.num_instances(), 1);
    for _ in 0..4 {
        b.process();
        assert_eq!(b.num_instances(), 1);
    }
    b.process();
    assert_eq!(b.num_instances(), 2);
    for _ in 0..20 {
        b.process();
    }
    assert_eq!(b.num_instances(), 2);
}

#[test]
fn looping_sequence_follows_metronome() {
    let (mut b, s) = backend_with_sound();
    let m = MetronomeId::new(0);
    let settings = MetronomeSettings::new().tempo(Value::Fixed(60 * UNIT));
    b.run_command(Command::AddMetronome(m, Metronome::new(settings, 10)));
    b.run_command(Command::Metronome(m, MetronomeCommand::Start));
    let steps = vec![
        SequenceStep::StartLoop,
        SequenceStep::WaitForInterval(UNIT as i64),
        SequenceStep::PlaySound(s, InstanceSettings::new()),
        SequenceStep::EmitCustomEvent(7),
    ];
    let id = SequenceInstanceId::new(1);
    b.run_command(Command::StartSequence(id, SequenceInstance::new(steps, Some(m), 4)));
    for _ in 0..25 {
        b.process();
    }
    assert_eq!(b.num_instances(), 2);
    assert_eq!(b.pop_sequence_event(id), Some(7));
    assert_eq!(b.pop_sequence_event(id), Some(7));
    assert_eq!(b.pop_sequence_event(id), None);
    b.run_command(Command::Sequence(id, SequenceCommand::Pause));
    for _ in 0..20 {
        b.process();
    }
    assert_eq!(b.pop_sequence_event(id), None);
}

#[test]
fn sequence_without_waits_cannot_stall_the_tick() {
    let (mut b, _) = backend_with_sound();
    let steps = vec![SequenceStep::StartLoop, SequenceStep::EmitCustomEvent(1)];
    let id = SequenceInstanceId::new(2);
    b.run_command(Command::StartSequence(id, SequenceInstance::new(steps, None, 100)));
    b.process();
    let mut count = 0;
    while b.pop_sequence_event(id).is_some() {
        count += 1;
    }
    assert!(count >= 1 && count <= 3);
}
