use kira::backend::{AudioManagerSettings, Backend, Command};
use kira::frame::UNIT;
use kira::metronome::{Metronome, MetronomeCommand, MetronomeId, MetronomeSettings};
use kira::value::Value;

fn metronome_backend(interval: i64, ticks_per_second: u32) -> (Backend, MetronomeId) {
    let mut b = Backend::new(AudioManagerSettings::new());
    let id = MetronomeId::new(0);
    let settings = MetronomeSettings::new()
        .tempo(Value::Fixed(60 * UNIT))
        .interval_events_to_emit(vec![interval]);
    b.run_command(Command::AddMetronome(id, Metronome::new(settings, ticks_per_second)));
    (b, id)
}

#[test]
fn metronome_emits_once_per_beat() {
    let (mut b, id) = metronome_backend(UNIT as i64, 10);
    b.run_command(Command::Metronome(id, MetronomeCommand::Start));
    for _ in 0..25 {
        b.process();
    }
    assert_eq!(b.pop_metronome_event(id), Some(UNIT as i64));
    assert_eq!(b.pop_metronome_event(id), Some(UNIT as i64));
    assert_eq!(b.pop_metronome_event(id), None);
}

#[test]
fn stopped_metronome_does_not_count() {
    let (mut b, id) = metronome_backend(UNIT as i64 / 2, 10);
    for _ in 0..30 {
        b.process();
    }
    assert_eq!(b.pop_metronome_event(id), None);
    b.run_command(Command::Metronome(id, MetronomeCommand::Start));
    for _ in 0..5 {
        b.process();
    }
    b.run_command(Command::Metronome(id, MetronomeCommand::Pause));
    for _ in 0..30 {
        b.process();
    }
    assert_eq!(b.pop_metronome_event(id), Some(UNIT as i64 / 2));
    assert_eq!(b.pop_metronome_event(id), None);
}

#[test]
fn metronome_beats_follow_tempo() {
    let settings = MetronomeSettings::new().tempo(Value::Fixed(120 * UNIT));
    let mut m = Metronome::new(settings, 100);
    let parameters = kira::parameter::Parameters::new(0);
    m.start();
    for _ in 0..50 {
        m.update(1, &parameters);
    }
    assert_eq!(m.beats(), UNIT as i64);
    m.stop();
    assert_eq!(m.beats(), 0);
}

#[test]
fn event_queue_drops_when_full() {
    let settings = MetronomeSettings::new()
        .tempo(Value::Fixed(60 * UNIT))
        .interval_events_to_emit(vec![UNIT as i64, 0, -5])
        .event_queue_capacity(2);
    let mut m = Metronome::new(settings, 1);
    let parameters = kira::parameter::Parameters::new(0);
    m.start();
    for _ in 0..5 {
        m.update(1, &parameters);
    }
    assert_eq!(m.pop_event(), Some(UNIT as i64));
    assert_eq!(m.pop_event(), Some(UNIT as i64));
    assert_eq!(m.pop_event(), None);
}
