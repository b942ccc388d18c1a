use std::sync::Arc;

use kira::active_ids::ActiveIds;
use kira::backend::{AudioManagerSettings, Backend, Command};
use kira::error::{AddParameterError, AddSoundError, RemoveParameterError, RemoveSoundError};
use kira::frame::{Frame, UNIT};
use kira::id::{IdGenerator, InstanceId, ParameterId, SoundId};
use kira::instance::{
    InstanceCommand, InstanceController, InstanceHandle, InstanceState, PauseInstanceSettings,
    ResumeInstanceSettings, StopInstanceSettings,
};
use kira::parameter::Tween;
use kira::settings::{InstanceLoopStart, InstanceSettings};
use kira::sound::{Sound, SoundSettings, StaticSoundData};
use kira::value::{CachedValue, Mapping, Value};

fn constant_sound(frames: usize, value: i32) -> Arc<StaticSoundData> {
    Arc::new(StaticSoundData::new(vec![Frame::from_mono(value); frames]))
}

fn backend(num_instances: usize) -> Backend {
    let mut settings = AudioManagerSettings::new();
    settings.num_instances = num_instances;
    Backend::new(settings)
}

fn controller() -> Arc<InstanceController> {
    Arc::new(InstanceController::new())
}

fn add_sound(b: &mut Backend, id: u64, data: Arc<StaticSoundData>, settings: SoundSettings) -> SoundId {
    let sound_id = SoundId::new(id);
    assert!(b.run_command(Command::AddSound(sound_id, Sound::new(data, settings))).is_none());
    sound_id
}

fn play(b: &mut Backend, id: u64, sound: SoundId, settings: InstanceSettings) -> InstanceId {
    let instance_id = InstanceId::new(id);
    b.run_command(Command::Play(instance_id, sound, settings, controller()));
    instance_id
}

#[test]
fn eviction_keeps_the_newest_three() {
    let mut b = backend(3);
    let s = add_sound(&mut b, 0, constant_sound(100, UNIT / 2), SoundSettings::new());
    let ids: Vec<InstanceId> = (0..4).map(|i| play(&mut b, i, s, InstanceSettings::new())).collect();
    assert_eq!(b.num_instances(), 3);
    assert_eq!(b.instance_state(ids[0]), None);
    for id in &ids[1..] {
        assert_eq!(b.instance_state(*id), Some(InstanceState::Playing));
    }
}

#[test]
fn fade_out_halves_then_silences() {
    let rate = 48000;
    let mut b = backend(10);
    let s = add_sound(&mut b, 0, constant_sound(3 * rate, UNIT / 2), SoundSettings::new());
    let i = play(&mut b, 0, s, InstanceSettings::new());
    let full = b.process();
    assert_eq!(full, Frame::new(UNIT / 2, UNIT / 2));
    b.run_command(Command::Instance(
        i,
        InstanceCommand::Stop(StopInstanceSettings { fade_tween: Some(Tween { duration: 2 * rate as u32 }) }),
    ));
    assert_eq!(b.instance_state(i), Some(InstanceState::Stopping));
    let mut out = Frame::silent();
    for _ in 0..rate {
        out = b.process();
    }
    let half = (full.left / 2) as i64;
    assert!((out.left as i64 - half).abs() <= half / 50, "left {} not near {}", out.left, half);
    for _ in 0..rate + 1 {
        out = b.process();
    }
    assert_eq!(b.instance_state(i), None);
    assert_eq!(b.process(), Frame::silent());
}

#[test]
fn parameter_drives_volume() {
    let rate = 48000;
    let mut b = backend(10);
    let s = add_sound(&mut b, 0, constant_sound(3 * rate, UNIT / 2), SoundSettings::new());
    let p = ParameterId::new(0);
    b.run_command(Command::AddParameter(p, UNIT / 2));
    let settings = InstanceSettings::new().volume(Value::Parameter(p, Mapping::identity()));
    play(&mut b, 0, s, settings);
    b.process();
    let out = b.process();
    assert_eq!(out.left, UNIT / 4);
    b.run_command(Command::SetParameter(p, UNIT, Some(Tween { duration: rate as u32 })));
    let mut out = Frame::silent();
    for _ in 0..rate / 2 {
        out = b.process();
    }
    let expected = (UNIT / 2) as i64 * 3 / 4;
    assert!((out.left as i64 - expected).abs() <= 2, "left {} not near {}", out.left, expected);
    for _ in 0..rate / 2 + 2 {
        out = b.process();
    }
    assert_eq!(out.left, UNIT / 2);
}

#[test]
fn looping_sound_sweeps_and_jumps_back() {
    let ticks_per_second = 100;
    let duration = 2 * ticks_per_second;
    let loop_start = (ticks_per_second / 2) as i64 * UNIT as i64;
    let mut b = backend(10);
    let s = add_sound(&mut b, 0, constant_sound(duration, UNIT / 2), SoundSettings::new());
    let settings = InstanceSettings::new().loop_start(InstanceLoopStart::Custom(loop_start));
    let i = play(&mut b, 0, s, settings);
    let end = duration as i64 * UNIT as i64;
    let mut previous = b.instance_position(i).unwrap();
    assert_eq!(previous, 0);
    let mut jumps = 0;
    for _ in 0..1000 {
        b.process();
        let position = b.instance_position(i).expect("a looping instance never stops");
        assert!(position >= 0 && position <= end);
        if position < previous {
            jumps += 1;
            assert!(position > loop_start && position <= loop_start + UNIT as i64);
        } else {
            assert_eq!(position - previous, UNIT as i64);
        }
        previous = position;
    }
    assert!(jumps >= 5);
    assert_eq!(b.instance_state(i), Some(InstanceState::Playing));
}

#[test]
fn reverse_loop_sweeps_down_and_jumps_to_end() {
    let ticks_per_second = 100;
    let duration = 2 * ticks_per_second;
    let loop_start = (ticks_per_second / 2) as i64 * UNIT as i64;
    let end = duration as i64 * UNIT as i64;
    let mut b = backend(10);
    let s = add_sound(&mut b, 0, constant_sound(duration, UNIT / 2), SoundSettings::new());
    let settings = InstanceSettings::new()
        .reverse(true)
        .loop_start(InstanceLoopStart::Custom(loop_start));
    let i = play(&mut b, 0, s, settings);
    let mut previous = b.instance_position(i).unwrap();
    assert_eq!(previous, end);
    let mut jumps = 0;
    for _ in 0..1000 {
        b.process();
        let position = b.instance_position(i).unwrap();
        assert!(position >= loop_start && position <= end);
        if position > previous {
            jumps += 1;
            assert!(position >= end - UNIT as i64);
        } else {
            assert_eq!(previous - position, UNIT as i64);
        }
        previous = position;
    }
    assert!(jumps >= 5);
}

#[test]
fn sine_playback_crosses_zero_twice_per_cycle() {
    let rate = 48000usize;
    let frames: Vec<Frame> = (0..rate)
        .map(|k| {
            let t = k as f64 / rate as f64;
            let v = (2.0 * std::f64::consts::PI * 440.0 * t).sin();
            Frame::from_mono((v * (UNIT as f64) * 0.9) as i32)
        })
        .collect();
    let mut b = backend(10);
    let s = add_sound(&mut b, 0, Arc::new(StaticSoundData::new(frames)), SoundSettings::new());
    play(&mut b, 0, s, InstanceSettings::new());
    let mut crossings = 0;
    let mut previous = b.process().left;
    for _ in 1..rate {
        let out = b.process().left;
        if (previous < 0 && out >= 0) || (previous >= 0 && out < 0) {
            crossings += 1;
        }
        previous = out;
    }
    assert!((879..=881).contains(&crossings), "{} crossings", crossings);
}

#[test]
fn set_without_tween_holds_after_a_tick() {
    let mut b = backend(10);
    let p = ParameterId::new(3);
    b.run_command(Command::AddParameter(p, 100));
    assert_eq!(b.parameter_value(p), Some(100));
    b.run_command(Command::SetParameter(p, -250, None));
    b.process();
    assert_eq!(b.parameter_value(p), Some(-250));
    b.run_command(Command::RemoveParameter(p));
    assert_eq!(b.parameter_value(p), None);
}

#[test]
fn tween_reaches_end_exactly() {
    let mut b = backend(10);
    let p = ParameterId::new(1);
    b.run_command(Command::AddParameter(p, 0));
    b.run_command(Command::SetParameter(p, 100, Some(Tween { duration: 4 })));
    b.process();
    assert_eq!(b.parameter_value(p), Some(25));
    b.process();
    assert_eq!(b.parameter_value(p), Some(50));
    b.process();
    b.process();
    assert_eq!(b.parameter_value(p), Some(100));
    b.process();
    assert_eq!(b.parameter_value(p), Some(100));
}

#[test]
fn pause_then_resume_returns_to_same_position() {
    let mut b = backend(10);
    let s = add_sound(&mut b, 0, constant_sound(100, UNIT / 2), SoundSettings::new());
    let i = play(&mut b, 0, s, InstanceSettings::new());
    for _ in 0..5 {
        b.process();
    }
    let position = b.instance_position(i).unwrap();
    b.run_command(Command::Instance(i, InstanceCommand::Pause(PauseInstanceSettings { fade_tween: None })));
    assert_eq!(b.instance_state(i), Some(InstanceState::Paused(position)));
    b.process();
    assert_eq!(b.instance_position(i), Some(position));
    b.run_command(Command::Instance(
        i,
        InstanceCommand::Resume(ResumeInstanceSettings { fade_tween: None, rewind_to_pause_position: false }),
    ));
    assert_eq!(b.instance_state(i), Some(InstanceState::Playing));
    assert_eq!(b.instance_position(i), Some(position));
}

#[test]
fn stopped_instance_stays_stopped() {
    let mut b = backend(10);
    let s = add_sound(&mut b, 0, constant_sound(100, UNIT / 2), SoundSettings::new());
    let i = play(&mut b, 0, s, InstanceSettings::new());
    b.run_command(Command::Instance(i, InstanceCommand::Stop(StopInstanceSettings { fade_tween: None })));
    assert_eq!(b.instance_state(i), Some(InstanceState::Stopped));
    b.run_command(Command::Instance(
        i,
        InstanceCommand::Resume(ResumeInstanceSettings { fade_tween: None, rewind_to_pause_position: true }),
    ));
    assert_eq!(b.instance_state(i), Some(InstanceState::Stopped));
    b.run_command(Command::Instance(i, InstanceCommand::Pause(PauseInstanceSettings { fade_tween: None })));
    assert_eq!(b.instance_state(i), Some(InstanceState::Stopped));
    b.run_command(Command::Instance(i, InstanceCommand::Stop(StopInstanceSettings { fade_tween: Some(Tween { duration: 10 }) })));
    assert_eq!(b.instance_state(i), Some(InstanceState::Stopped));
    assert_eq!(b.process(), Frame::silent());
    assert_eq!(b.instance_state(i), None);
}

#[test]
fn removing_sound_keeps_playing_instances() {
    let mut with_removal = backend(10);
    let mut without_removal = backend(10);
    for b in [&mut with_removal, &mut without_removal] {
        let s = add_sound(b, 0, constant_sound(50, UNIT / 3), SoundSettings::new());
        play(b, 0, s, InstanceSettings::new());
        b.process();
    }
    let removed = with_removal.run_command(Command::RemoveSound(SoundId::new(0)));
    assert!(removed.is_some());
    for _ in 0..60 {
        assert_eq!(with_removal.process(), without_removal.process());
    }
    assert_eq!(with_removal.num_instances(), 0);
}

#[test]
fn unknown_sound_and_cooldown_drop_the_play() {
    let mut b = backend(10);
    play(&mut b, 0, SoundId::new(9), InstanceSettings::new());
    assert_eq!(b.num_instances(), 0);
    let s = add_sound(&mut b, 0, constant_sound(100, UNIT / 2), SoundSettings::new().cooldown(Some(3)));
    let first = play(&mut b, 1, s, InstanceSettings::new());
    let second = play(&mut b, 2, s, InstanceSettings::new());
    assert!(b.instance_state(first).is_some());
    assert_eq!(b.instance_state(second), None);
    for _ in 0..3 {
        b.process();
    }
    let third = play(&mut b, 3, s, InstanceSettings::new());
    assert!(b.instance_state(third).is_some());
}

#[test]
fn sound_ends_without_loop() {
    let mut b = backend(10);
    let s = add_sound(&mut b, 0, constant_sound(3, UNIT / 2), SoundSettings::new());
    let i = play(&mut b, 0, s, InstanceSettings::new().loop_start(InstanceLoopStart::Disabled));
    for _ in 0..3 {
        b.process();
        assert!(b.instance_state(i).is_some());
    }
    b.process();
    assert_eq!(b.instance_state(i), None);
}

#[test]
fn panning_and_scaling_are_exact() {
    let f = Frame::new(1000, -1000);
    assert_eq!(f.panned(0), Frame::new(1000, 0));
    assert_eq!(f.panned(UNIT), Frame::new(0, -1000));
    assert_eq!(f.panned(UNIT / 2), f);
    assert_eq!(f.panned(UNIT / 4), Frame::new(1000, -500));
    assert_eq!(f.scaled(UNIT / 2), Frame::new(500, -500));
    assert_eq!(f.add(Frame::new(i32::MAX, 5)), Frame::new(i32::MAX, -995));
}

#[test]
fn mapping_is_linear() {
    let m = Mapping {
        input_start: 0,
        input_end: 100,
        output_start: 1000,
        output_end: 2000,
        clamp_bottom: true,
        clamp_top: false,
    };
    assert_eq!(m.map(50), 1500);
    assert_eq!(m.map(-50), 1000);
    assert_eq!(m.map(200), 3000);
    assert_eq!(Mapping::identity().map(1234), 1234);
}

#[test]
fn random_value_is_drawn_within_range() {
    let mut seen_other = false;
    for _ in 0..50 {
        let v = CachedValue::new(Value::Random(10, 1000), 0).value();
        assert!((10..1000).contains(&v));
        if v != 10 {
            seen_other = true;
        }
    }
    assert!(seen_other);
    assert_eq!(CachedValue::new(Value::Random(5, 5), 0).value(), 5);
}

#[test]
fn limits_are_checked_before_sending() {
    let mut settings = AudioManagerSettings::new();
    settings.num_sounds = 1;
    settings.num_parameters = 1;
    let mut ids = ActiveIds::new(&settings);
    let mut generator = IdGenerator::new();
    let a = generator.next_sound_id().unwrap();
    let b = generator.next_sound_id().unwrap();
    assert_ne!(a, b);
    assert_eq!(ids.add_sound_id(a), Ok(()));
    assert_eq!(ids.add_sound_id(b), Err(AddSoundError::SoundLimitReached));
    assert_eq!(ids.remove_sound_id(b), Err(RemoveSoundError::NoSoundWithId(b)));
    assert_eq!(ids.remove_sound_id(a), Ok(()));
    assert_eq!(ids.add_sound_id(b), Ok(()));
    let p = generator.next_parameter_id().unwrap();
    let q = generator.next_parameter_id().unwrap();
    assert_eq!(ids.add_parameter_id(p), Ok(()));
    assert_eq!(ids.add_parameter_id(q), Err(AddParameterError::ParameterLimitReached));
    assert_eq!(ids.remove_parameter_id(q), Err(RemoveParameterError::NoParameterWithId(q)));
}

#[test]
fn handle_stop_reaches_the_instance() {
    let c = controller();
    let handle = InstanceHandle::new(c.clone());
    let mut b = backend(10);
    let s = add_sound(&mut b, 0, constant_sound(100, UNIT / 2), SoundSettings::new());
    let i = InstanceId::new(0);
    b.run_command(Command::Play(i, s, InstanceSettings::new(), c));
    b.process();
    assert_eq!(handle.position(), UNIT as i64);
    handle.stop();
    assert_eq!(handle.state_code(), kira::instance::STOPPED_CODE);
    b.update_from_controllers();
    assert_eq!(b.instance_state(i), Some(InstanceState::Stopped));
    b.process();
    assert_eq!(b.instance_state(i), None);
}

#[test]
fn frames_between_ticks_are_interpolated() {
    let frames = vec![Frame::from_mono(0), Frame::from_mono(1000), Frame::from_mono(1000), Frame::from_mono(1000)];
    let data = StaticSoundData::new(frames);
    assert_eq!(data.duration(), 4 * UNIT as i64);
    assert_eq!(data.frame_at(UNIT as i64), Frame::from_mono(1000));
    assert_eq!(data.frame_at(UNIT as i64 / 2), Frame::from_mono(500));
    assert_eq!(data.frame_at(-1), Frame::silent());
    assert_eq!(data.frame_at(4 * UNIT as i64), Frame::silent());
}

#[test]
fn removed_parameter_leaves_last_value() {
    let mut b = backend(10);
    let s = add_sound(&mut b, 0, constant_sound(1000, UNIT / 2), SoundSettings::new());
    let p = ParameterId::new(0);
    b.run_command(Command::AddParameter(p, UNIT / 4));
    play(&mut b, 0, s, InstanceSettings::new().volume(Value::Parameter(p, Mapping::identity())));
    b.process();
    assert_eq!(b.process().left, UNIT / 8);
    b.run_command(Command::RemoveParameter(p));
    for _ in 0..5 {
        assert_eq!(b.process().left, UNIT / 8);
    }
}

#[test]
fn pool_of_capacity_zero_admits_nothing() {
    let mut b = backend(0);
    let s = add_sound(&mut b, 0, constant_sound(10, UNIT / 2), SoundSettings::new());
    let i = play(&mut b, 0, s, InstanceSettings::new());
    assert_eq!(b.instance_state(i), None);
    assert_eq!(b.process(), Frame::silent());
}

#[test]
fn seeking_moves_the_position() {
    let mut b = backend(10);
    let s = add_sound(&mut b, 0, constant_sound(100, UNIT / 2), SoundSettings::new());
    let i = play(&mut b, 0, s, InstanceSettings::new());
    b.run_command(Command::Instance(i, InstanceCommand::SeekTo(40 * UNIT as i64)));
    assert_eq!(b.instance_position(i), Some(40 * UNIT as i64));
    b.run_command(Command::Instance(i, InstanceCommand::Seek(-(10 * UNIT as i64))));
    assert_eq!(b.instance_position(i), Some(30 * UNIT as i64));
    b.run_command(Command::Instance(i, InstanceCommand::SetPlaybackRate(Value::Fixed(2 * UNIT))));
    b.process();
    assert_eq!(b.instance_position(i), Some(32 * UNIT as i64));
}

#[test]
fn fade_in_starts_silent() {
    let mut b = backend(10);
    let s = add_sound(&mut b, 0, constant_sound(100, UNIT / 2), SoundSettings::new());
    play(&mut b, 0, s, InstanceSettings::new().fade_in_tween(Some(Tween { duration: 4 })));
    assert_eq!(b.process().left, 0);
    assert_eq!(b.process().left, UNIT / 8);
    b.process();
    b.process();
    assert_eq!(b.process().left, UNIT / 2);
}

#[test]
fn generator_hands_out_distinct_ids() {
    let mut generator = IdGenerator::new();
    let first = generator.next_instance_id().unwrap();
    let second = generator.next_instance_id().unwrap();
    assert_eq!(first.index, 0);
    assert_eq!(second.index, 1);
}
