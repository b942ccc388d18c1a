use std::sync::Arc;

use kira::backend::{AudioManagerSettings, Backend, Command, Released};
use kira::frame::{Frame, UNIT};
use kira::id::{InstanceId, SoundId};
use kira::instance::InstanceController;
use kira::mixer::{SendTrack, SendTrackId, SubTrack, SubTrackId, TrackIndex};
use kira::settings::InstanceSettings;
use kira::sound::{Sound, SoundSettings, StaticSoundData};
use kira::value::Value;

fn backend() -> Backend {
    let mut b = Backend::new(AudioManagerSettings::default());
    let data = Arc::new(StaticSoundData::new(vec![Frame::from_mono(UNIT / 2); 100]));
    b.run_command(Command::AddSound(SoundId::new(0), Sound::new(data, SoundSettings::default())));
    b
}

fn play_into(b: &mut Backend, id: u64, track: TrackIndex) {
    b.run_command(Command::Play(
        InstanceId::new(id),
        SoundId::new(0),
        InstanceSettings::default().track(track),
        Arc::new(InstanceController::new()),
    ));
}

#[test]
fn sub_track_volume_scales_its_instances() {
    let mut b = backend();
    let a = SubTrackId { index: 1 };
    b.run_command(Command::AddSubTrack(a, SubTrack::new(Value::Fixed(UNIT / 2), TrackIndex::Main, &vec![])));
    play_into(&mut b, 0, TrackIndex::Sub(a));
    assert_eq!(b.process(), Frame::from_mono(UNIT / 4));
}

#[test]
fn nested_sub_tracks_reach_main_through_parents() {
    let mut b = backend();
    let a = SubTrackId { index: 1 };
    let c = SubTrackId { index: 2 };
    b.run_command(Command::AddSubTrack(a, SubTrack::new(Value::Fixed(UNIT / 2), TrackIndex::Main, &vec![])));
    b.run_command(Command::AddSubTrack(c, SubTrack::new(Value::Fixed(UNIT / 2), TrackIndex::Sub(a), &vec![])));
    play_into(&mut b, 0, TrackIndex::Sub(c));
    play_into(&mut b, 1, TrackIndex::Main);
    assert_eq!(b.process(), Frame::from_mono(UNIT / 8 + UNIT / 2));
}

#[test]
fn sends_feed_send_tracks() {
    let mut b = backend();
    let s = SendTrackId { index: 5 };
    let a = SubTrackId { index: 1 };
    b.run_command(Command::AddSendTrack(s, SendTrack::new(Value::Fixed(UNIT / 2))));
    b.run_command(Command::AddSubTrack(
        a,
        SubTrack::new(Value::Fixed(UNIT), TrackIndex::Main, &vec![(s, Value::Fixed(UNIT / 2))]),
    ));
    play_into(&mut b, 0, TrackIndex::Sub(a));
    assert_eq!(b.process(), Frame::from_mono(UNIT / 2 + UNIT / 8));
}

#[test]
fn missing_tracks_take_nothing() {
    let mut b = backend();
    let refused = b.run_command(Command::AddSubTrack(
        SubTrackId { index: 3 },
        SubTrack::new(Value::Fixed(UNIT), TrackIndex::Sub(SubTrackId { index: 9 }), &vec![]),
    ));
    assert!(matches!(refused, Some(Released::SubTrack(_))));
    play_into(&mut b, 0, TrackIndex::Sub(SubTrackId { index: 9 }));
    assert_eq!(b.process(), Frame::silent());
}
