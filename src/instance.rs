//! Individual voices of sounds: the playback state machine.
//!
//! Positions are measured in position units: `UNIT` of them make one tick
//! at a playback rate of 1.0. A position never leaves
//! `-POSITION_LIMIT..=POSITION_LIMIT`.
use vstd::prelude::*;
use std::sync::Arc;
use std::sync::atomic::{AtomicI64, AtomicU8, Ordering};
use crate::frame::{clamp_sample, left_gain, right_gain, scale, Frame, SAMPLE_MAX, UNIT};
use crate::id::SoundId;
use crate::mixer::TrackIndex;
use crate::parameter::{model_wf, parameter_step, set_model, Parameter, ParameterModel, Parameters, Tween};
use crate::sound::StaticSoundData;
use crate::value::{bounded, refreshed, CachedValue, Value};

verus! {

/// The largest magnitude of a position, a duration or a loop start.
pub const POSITION_LIMIT: i64 = 0x2000_0000_0000_0000;

/// `x` limited to the range of positions.
pub open spec fn clamp_position(x: int) -> int {
    if x > POSITION_LIMIT { POSITION_LIMIT as int } else if x < -POSITION_LIMIT { -POSITION_LIMIT } else { x }
}

/// `x` limited to the range of positions.
pub fn clamp_position_exec(x: i128) -> (r: i64)
    ensures
        r == clamp_position(x as int),
{
    if x > POSITION_LIMIT as i128 {
        POSITION_LIMIT
    } else if x < -(POSITION_LIMIT as i128) {
        -POSITION_LIMIT
    } else {
        x as i64
    }
}

/// A position past the end of a looping sound, moved back by whole loop
/// lengths (`duration - loop_start`) until it is no longer past the end.
pub open spec fn wrap_forward(pos: int, duration: int, loop_start: int) -> int
    decreases pos - loop_start,
{
    if loop_start < duration && pos > duration {
        wrap_forward(pos - (duration - loop_start), duration, loop_start)
    } else {
        pos
    }
}

/// A position before the loop start of a sound playing backward, moved
/// forward by whole loop lengths until it is no longer before the loop start.
pub open spec fn wrap_backward(pos: int, duration: int, loop_start: int) -> int
    decreases duration - pos,
{
    if loop_start < duration && pos < loop_start {
        wrap_backward(pos + (duration - loop_start), duration, loop_start)
    } else {
        pos
    }
}

proof fn lemma_wrap_forward(pos: int, duration: int, loop_start: int)
    requires
        loop_start < duration,
        pos > duration,
    ensures
        wrap_forward(pos, duration, loop_start) == loop_start + 1 + (pos - loop_start - 1) % (duration
            - loop_start),
    decreases pos - duration,
{
    let p = duration - loop_start;
    let b = pos - loop_start - 1;
    vstd::arithmetic::div_mod::lemma_mod_sub_multiples_vanish(b, p);
    if pos - p > duration {
        lemma_wrap_forward(pos - p, duration, loop_start);
        assert(pos - p - loop_start - 1 == -p + b);
    } else {
        vstd::arithmetic::div_mod::lemma_small_mod((b - p) as nat, p as nat);
        assert(-p + b == b - p);
        assert(wrap_forward(pos - p, duration, loop_start) == pos - p);
    }
}

proof fn lemma_wrap_backward(pos: int, duration: int, loop_start: int)
    requires
        loop_start < duration,
        pos < loop_start,
    ensures
        ({
            let p = duration - loop_start;
            let m = (loop_start - pos) % p;
            wrap_backward(pos, duration, loop_start) == if m == 0 { loop_start } else { loop_start + p - m }
        }),
    decreases loop_start - pos,
{
    let p = duration - loop_start;
    let q = loop_start - pos;
    vstd::arithmetic::div_mod::lemma_mod_sub_multiples_vanish(q, p);
    if pos + p < loop_start {
        lemma_wrap_backward(pos + p, duration, loop_start);
        assert(loop_start - (pos + p) == -p + q);
    } else {
        assert(wrap_backward(pos + p, duration, loop_start) == pos + p);
        if q == p {
            vstd::arithmetic::div_mod::lemma_small_mod(0, p as nat);
            assert(-p + q == 0);
        } else {
            vstd::arithmetic::div_mod::lemma_small_mod(q as nat, p as nat);
        }
    }
}

fn wrap_forward_exec(pos: i64, duration: i64, loop_start: i64) -> (r: i64)
    requires
        -POSITION_LIMIT <= loop_start < duration <= POSITION_LIMIT,
        -POSITION_LIMIT <= pos <= POSITION_LIMIT,
    ensures
        r == wrap_forward(pos as int, duration as int, loop_start as int),
        pos > duration ==> loop_start < r <= duration,
        pos <= duration ==> r == pos,
{
    if pos > duration {
        let p = duration - loop_start;
        proof {
            lemma_wrap_forward(pos as int, duration as int, loop_start as int);
            vstd::arithmetic::div_mod::lemma_mod_bound((pos - loop_start - 1) as int, p as int);
        }
        loop_start + 1 + (pos - loop_start - 1) % p
    } else {
        pos
    }
}

fn wrap_backward_exec(pos: i64, duration: i64, loop_start: i64) -> (r: i64)
    requires
        -POSITION_LIMIT <= loop_start < duration <= POSITION_LIMIT,
        -POSITION_LIMIT <= pos <= POSITION_LIMIT,
    ensures
        r == wrap_backward(pos as int, duration as int, loop_start as int),
        pos < loop_start ==> loop_start <= r < duration,
        pos >= loop_start ==> r == pos,
{
    if pos < loop_start {
        let p = duration - loop_start;
        let q = loop_start - pos;
        proof {
            lemma_wrap_backward(pos as int, duration as int, loop_start as int);
            vstd::arithmetic::div_mod::lemma_mod_bound(q as int, p as int);
        }
        let m = q % p;
        if m == 0 {
            loop_start
        } else {
            loop_start + p - m
        }
    } else {
        pos
    }
}

/// Where a voice lands after moving to `pos`, and whether it ran off the
/// end of its sound: past the end going forward, before the start going
/// backward. With a loop start before the end it wraps around instead;
/// a loop start at or after the end counts as no loop.
pub open spec fn settle(pos: int, backward: bool, duration: int, loop_start: Option<i64>) -> (int, bool) {
    match loop_start {
        Some(l) if l < duration => if backward {
            (wrap_backward(pos, duration, l as int), false)
        } else {
            (wrap_forward(pos, duration, l as int), false)
        },
        _ => if backward { (pos, pos < 0) } else { (pos, pos > duration) },
    }
}

/// The playback state of an instance.
#[derive(Debug, Clone, Copy, PartialEq, Eq, Structural)]
pub enum InstanceState {
    /// The instance is playing.
    Playing,
    /// The instance is paused; the pause came at the given position.
    Paused(i64),
    /// The instance is stopped and cannot be resumed.
    Stopped,
    /// The instance is fading out and will be paused when the fade ends;
    /// the pause came at the given position.
    Pausing(i64),
    /// The instance is fading out and will be stopped when the fade ends.
    Stopping,
}

/// Whether an instance in `state` produces sound and advances.
pub open spec fn is_playing(state: InstanceState) -> bool {
    state is Playing || state is Pausing || state is Stopping
}

/// The state once a fade has finished: a pause or stop in progress completes.
pub open spec fn after_fade(state: InstanceState) -> InstanceState {
    match state {
        InstanceState::Pausing(p) => InstanceState::Paused(p),
        InstanceState::Stopping => InstanceState::Stopped,
        s => s,
    }
}

/// Whether `state` is a pause, complete or in progress.
pub open spec fn is_paused(state: InstanceState) -> bool {
    state is Paused || state is Pausing
}

/// The state after a pause at `pos`: a playing instance pauses, at once or
/// through a fade; any other state stays.
pub open spec fn paused_state(state: InstanceState, pos: int, settings: PauseInstanceSettings) -> InstanceState {
    if state == InstanceState::Playing {
        match settings.fade_tween {
            Some(_) => InstanceState::Pausing(pos as i64),
            None => InstanceState::Paused(pos as i64),
        }
    } else {
        state
    }
}

/// The state and position after a resume: a paused or pausing instance
/// plays again, back at its pause position if asked to; any other instance
/// stays as it is.
pub open spec fn resumed(state: InstanceState, pos: int, settings: ResumeInstanceSettings) -> (InstanceState, int) {
    match state {
        InstanceState::Paused(p) | InstanceState::Pausing(p) => (
            InstanceState::Playing,
            if settings.rewind_to_pause_position { p as int } else { pos },
        ),
        _ => (state, pos),
    }
}

/// The state after a stop: an instance that has not stopped stops, at once
/// or through a fade.
pub open spec fn stopped_state(state: InstanceState, settings: StopInstanceSettings) -> InstanceState {
    if state == InstanceState::Stopped {
        state
    } else {
        match settings.fade_tween {
            Some(_) => InstanceState::Stopping,
            None => InstanceState::Stopped,
        }
    }
}

/// The state after a tick in which the voice did or did not run off the end
/// of its sound and its fade did or did not finish.
pub open spec fn updated_state(state: InstanceState, ended: bool, fade_finished: bool) -> InstanceState {
    let moved = if is_playing(state) && ended { InstanceState::Stopped } else { state };
    if fade_finished { after_fade(moved) } else { moved }
}

/// A voice with a loop start before the end of its sound never runs off it:
/// going forward past the end it lands after the loop start and not past
/// the end; going backward before the loop start it lands at or after the
/// loop start and before the end; either way it does not stop, and a playing
/// instance stays playing unless a fade completes a stop or pause.
pub proof fn looping_stays_in_range(pos: int, backward: bool, duration: int, loop_start: i64, fade_finished: bool)
    requires
        loop_start < duration,
    ensures
        !backward && pos > duration ==> loop_start < settle(pos, backward, duration, Some(loop_start)).0 <= duration,
        backward && pos < loop_start ==> loop_start <= settle(pos, backward, duration, Some(loop_start)).0 < duration,
        !settle(pos, backward, duration, Some(loop_start)).1,
        updated_state(InstanceState::Playing, settle(pos, backward, duration, Some(loop_start)).1, fade_finished)
            == InstanceState::Playing,
{
    let l = loop_start as int;
    let p = duration - l;
    if !backward && pos > duration {
        lemma_wrap_forward(pos, duration, l);
        vstd::arithmetic::div_mod::lemma_mod_bound(pos - l - 1, p);
    }
    if backward && pos < l {
        lemma_wrap_backward(pos, duration, l);
        vstd::arithmetic::div_mod::lemma_mod_bound(l - pos, p);
    }
}

/// A playing voice panned to the centre with its fade at full scale gives its
/// sound's frame scaled by its volume alone: a volume following a parameter
/// at half scale gives half the source.
pub proof fn centred_voice_scales_by_volume(i: Instance)
    requires
        is_playing(i.spec_state()),
        i.spec_fade().0 == UNIT,
        i.spec_panning().spec_value() == UNIT / 2,
        -SAMPLE_MAX <= i.spec_volume().spec_value() <= SAMPLE_MAX,
    ensures
        ({
            let f = i.spec_data().spec_frame_at(i.spec_position());
            let v = i.spec_volume().spec_value();
            instance_output(i) == (Frame {
                left: clamp_sample(scale(f.left as int, v)) as i32,
                right: clamp_sample(scale(f.right as int, v)) as i32,
            })
        }),
{
    let f = i.spec_data().spec_frame_at(i.spec_position());
    let v = i.spec_volume().spec_value();
    lemma_scale_unit(v);
    lemma_scale_unit(f.left as int);
    lemma_scale_unit(f.right as int);
    lemma_clamp_sample_frame(f);
}

proof fn lemma_scale_unit(x: int)
    ensures
        scale(x, UNIT as int) == x,
{
    let u = UNIT as int;
    if x >= 0 {
        assert((x * u) / u == x) by (nonlinear_arith)
            requires
                u == 65536,
                x >= 0,
        ;
    } else {
        assert(x * u == -((-x) * u)) by (nonlinear_arith);
        assert(((-x) * u) / u == -x) by (nonlinear_arith)
            requires
                u == 65536,
                x < 0,
        ;
    }
}

proof fn lemma_clamp_sample_frame(f: Frame)
    requires
        f.left == 0 && f.right == 0 || (-SAMPLE_MAX <= f.left && -SAMPLE_MAX <= f.right),
    ensures
        clamp_sample(f.left as int) == f.left,
        clamp_sample(f.right as int) == f.right,
{
}

/// Pausing a playing instance without a fade and then resuming it without a
/// fade leaves it playing at the position where it was.
pub proof fn pause_then_resume(pos: i64, rewind_to_pause_position: bool)
    ensures
        resumed(
            paused_state(InstanceState::Playing, pos as int, PauseInstanceSettings { fade_tween: None }),
            pos as int,
            ResumeInstanceSettings { fade_tween: None, rewind_to_pause_position },
        ) == (InstanceState::Playing, pos as int),
{
}

/// Once stopped, an instance stays stopped whatever happens to it next:
/// a pause, a resume, another stop, or a tick.
pub proof fn stopped_is_final(
    pos: int,
    pause: PauseInstanceSettings,
    resume: ResumeInstanceSettings,
    stop: StopInstanceSettings,
    ended: bool,
    fade_finished: bool,
)
    ensures
        paused_state(InstanceState::Stopped, pos, pause) == InstanceState::Stopped,
        resumed(InstanceState::Stopped, pos, resume).0 == InstanceState::Stopped,
        stopped_state(InstanceState::Stopped, stop) == InstanceState::Stopped,
        updated_state(InstanceState::Stopped, ended, fade_finished) == InstanceState::Stopped,
{
}

/// A tick never brings an instance back from a pause or a stop: a paused
/// instance stays paused and a stopped one stays stopped.
pub proof fn tick_keeps_rest(state: InstanceState, ended: bool, fade_finished: bool)
    ensures
        state is Paused ==> updated_state(state, ended, fade_finished) == state,
        state is Stopped ==> updated_state(state, ended, fade_finished) == state,
{
}

impl InstanceState {
    /// A small code for the state, for mirrors that hold one byte.
    pub fn code(self) -> (r: u8)
        ensures
            r == state_code(self),
    {
        match self {
            InstanceState::Playing => 0,
            InstanceState::Paused(_) => 1,
            InstanceState::Stopped => 2,
            InstanceState::Pausing(_) => 3,
            InstanceState::Stopping => 4,
        }
    }
}

/// The one-byte code of a state.
pub open spec fn state_code(s: InstanceState) -> u8 {
    match s {
        InstanceState::Playing => 0,
        InstanceState::Paused(_) => 1,
        InstanceState::Stopped => 2,
        InstanceState::Pausing(_) => 3,
        InstanceState::Stopping => 4,
    }
}

/// The code of [`InstanceState::Stopped`].
pub const STOPPED_CODE: u8 = 2;

/// Lock-free mirrors of an instance's state and position, shared between
/// the audio thread, which writes them, and the control thread.
pub struct InstanceController {
    pub state: AtomicU8,
    pub position: AtomicI64,
}

impl InstanceController {
    /// Mirrors for a playing instance at position 0.
    pub fn new() -> (r: InstanceController) {
        InstanceController { state: AtomicU8::new(0), position: AtomicI64::new(0) }
    }
}

/// The control thread's view of an instance.
pub struct InstanceHandle {
    controller: Arc<InstanceController>,
}

impl InstanceHandle {
    /// A handle on the instance that writes `controller`.
    pub fn new(controller: Arc<InstanceController>) -> (r: InstanceHandle) {
        InstanceHandle { controller }
    }

    /// Asks the instance to stop; it does so at its next update.
    pub fn stop(&self) {
        self.controller.state.store(STOPPED_CODE, Ordering::Relaxed);
    }

    /// The last state code the instance published.
    pub fn state_code(&self) -> (r: u8) {
        self.controller.state.load(Ordering::Relaxed)
    }

    /// The last position the instance published.
    pub fn position(&self) -> (r: i64) {
        self.controller.position.load(Ordering::Relaxed)
    }
}

/// How to pause an instance.
#[derive(Debug, Clone, Copy)]
pub struct PauseInstanceSettings {
    /// The fade-out, if any.
    pub fade_tween: Option<Tween>,
}

/// How to resume an instance.
#[derive(Debug, Clone, Copy)]
pub struct ResumeInstanceSettings {
    /// The fade-in, if any.
    pub fade_tween: Option<Tween>,
    /// Whether to go back to where the instance was paused.
    pub rewind_to_pause_position: bool,
}

/// How to stop an instance.
#[derive(Debug, Clone, Copy)]
pub struct StopInstanceSettings {
    /// The fade-out, if any.
    pub fade_tween: Option<Tween>,
}

/// The values an instance starts from, once the sound's defaults are applied.
#[derive(Debug, Clone, Copy)]
pub struct InternalInstanceSettings {
    pub volume: Value,
    pub playback_rate: Value,
    pub panning: Value,
    pub start_position: i64,
    pub reverse: bool,
    pub loop_start: Option<i64>,
    pub fade_in_tween: Option<Tween>,
    pub track: TrackIndex,
}

/// One playing voice of a sound.
pub struct Instance {
    sound_id: SoundId,
    data: Arc<StaticSoundData>,
    duration: i64,
    volume: CachedValue,
    playback_rate: CachedValue,
    panning: CachedValue,
    reverse: bool,
    loop_start: Option<i64>,
    state: InstanceState,
    position: i64,
    fade_volume: Parameter,
    controller: Arc<InstanceController>,
    groups: Arc<Vec<u64>>,
    track: TrackIndex,
}

/// Whether `last` is a raw value a cached value set to `value` may start
/// from, with `default` for a value that follows a parameter.
pub open spec fn initial_last(value: Value, last: i32, default: i32) -> bool {
    match value {
        Value::Fixed(v) => last == v,
        Value::Parameter(_, _) => last == default,
        Value::Random(low, high) => crate::value::is_draw(low as int, high as int, last as int),
    }
}

/// The value `cv` reports after an update against `parameters`.
pub open spec fn refreshed_value(cv: CachedValue, parameters: &Parameters) -> int {
    bounded(refreshed(cv.spec_setting(), cv.spec_last(), parameters) as int, cv.spec_min(), cv.spec_max())
}

impl Instance {
    /// The instance's playback state.
    pub closed spec fn spec_state(&self) -> InstanceState {
        self.state
    }

    /// The playback position.
    pub closed spec fn spec_position(&self) -> int {
        self.position as int
    }

    /// The length of the sound, in position units.
    pub closed spec fn spec_duration(&self) -> int {
        self.duration as int
    }

    /// The sound the instance plays.
    pub closed spec fn spec_sound_id(&self) -> SoundId {
        self.sound_id
    }

    /// The mixer track the instance plays into.
    pub closed spec fn spec_track(&self) -> TrackIndex {
        self.track
    }

    /// The indices of the groups the instance's sound is tagged with.
    pub closed spec fn spec_groups(&self) -> Seq<u64> {
        self.groups@
    }

    /// The sound data the instance holds on to.
    pub closed spec fn spec_data(&self) -> StaticSoundData {
        *self.data
    }

    /// Whether the instance plays backward.
    pub closed spec fn spec_reverse(&self) -> bool {
        self.reverse
    }

    /// The position playback loops back to, if any.
    pub closed spec fn spec_loop_start(&self) -> Option<i64> {
        self.loop_start
    }

    /// The fade applied on top of the volume.
    pub closed spec fn spec_fade(&self) -> ParameterModel {
        self.fade_volume@
    }

    /// The volume.
    pub closed spec fn spec_volume(&self) -> CachedValue {
        self.volume
    }

    /// The playback rate.
    pub closed spec fn spec_playback_rate(&self) -> CachedValue {
        self.playback_rate
    }

    /// The panning, kept between 0 and `UNIT`.
    pub closed spec fn spec_panning(&self) -> CachedValue {
        self.panning
    }

    /// Positions and the duration lie within the limits, the panning stays
    /// between hard left and hard right, and the fade is a well-formed
    /// parameter.
    pub open spec fn wf(&self) -> bool {
        &&& 0 <= self.spec_duration() <= POSITION_LIMIT
        &&& -POSITION_LIMIT <= self.spec_position() <= POSITION_LIMIT
        &&& self.spec_loop_start() matches Some(l) ==> -POSITION_LIMIT <= l <= POSITION_LIMIT
        &&& model_wf(self.spec_fade())
        &&& self.spec_panning().spec_min() == Some(0i32)
        &&& self.spec_panning().spec_max() == Some(UNIT)
        &&& self.spec_data().spec_duration() == self.spec_duration()
        &&& match self.spec_state() {
            InstanceState::Paused(p) | InstanceState::Pausing(p) => -POSITION_LIMIT <= p <= POSITION_LIMIT,
            _ => true,
        }
    }

    /// A playing instance of the sound `sound_id`, whose data is `data`.
    ///
    /// The start position and loop start are limited to the range of
    /// positions. With a fade-in the fade starts at 0 and tweens to 1;
    /// otherwise it rests at 1.
    pub fn new(
        sound_id: SoundId,
        data: Arc<StaticSoundData>,
        settings: InternalInstanceSettings,
        controller: Arc<InstanceController>,
        groups: Arc<Vec<u64>>,
    ) -> (r: Instance)
        ensures
            r.wf(),
            r.spec_groups() == groups@,
            r.spec_track() == settings.track,
            r.spec_sound_id() == sound_id,
            r.spec_data() == *data,
            r.spec_duration() == data.spec_duration(),
            r.spec_state() == InstanceState::Playing,
            r.spec_position() == clamp_position(settings.start_position as int),
            r.spec_reverse() == settings.reverse,
            r.spec_loop_start() == match settings.loop_start {
                Some(l) => Some(clamp_position(l as int) as i64),
                None => None,
            },
            r.spec_fade() == match settings.fade_in_tween {
                Some(tw) => (0int, Some((0int, UNIT as int, 0int, tw.duration as int))),
                None => (UNIT as int, None::<(int, int, int, int)>),
            },
            r.spec_volume().spec_setting() == settings.volume,
            r.spec_playback_rate().spec_setting() == settings.playback_rate,
            r.spec_panning().spec_setting() == settings.panning,
            r.spec_volume().spec_min() is None && r.spec_volume().spec_max() is None,
            r.spec_playback_rate().spec_min() is None && r.spec_playback_rate().spec_max() is None,
            r.spec_panning().spec_min() == Some(0i32) && r.spec_panning().spec_max() == Some(UNIT),
            initial_last(settings.volume, r.spec_volume().spec_last(), UNIT),
            initial_last(settings.playback_rate, r.spec_playback_rate().spec_last(), UNIT),
            initial_last(settings.panning, r.spec_panning().spec_last(), (UNIT / 2) as i32),
            0 <= r.spec_panning().spec_value() <= UNIT,
    {
        let fade_volume = match settings.fade_in_tween {
            Some(tween) => {
                let mut f = Parameter::new(0);
                f.set(UNIT, Some(tween));
                f
            },
            None => Parameter::new(UNIT),
        };
        let duration = data.duration();
        let position = clamp_position_exec(settings.start_position as i128);
        let loop_start = match settings.loop_start {
            Some(l) => Some(clamp_position_exec(l as i128)),
            None => None,
        };
        Instance {
            sound_id,
            data,
            duration,
            volume: CachedValue::new(settings.volume, UNIT),
            playback_rate: CachedValue::new(settings.playback_rate, UNIT),
            panning: CachedValue::new(settings.panning, UNIT / 2).with_valid_range(0..UNIT),
            reverse: settings.reverse,
            loop_start,
            state: InstanceState::Playing,
            position,
            fade_volume,
            controller,
            groups,
            track: settings.track,
        }
    }

    /// The sound the instance plays.
    pub fn sound_id(&self) -> (r: SoundId)
        ensures
            r == self.spec_sound_id(),
    {
        self.sound_id
    }

    /// The playback state.
    pub fn state(&self) -> (r: InstanceState)
        ensures
            r == self.spec_state(),
    {
        self.state
    }

    /// The playback position.
    pub fn position(&self) -> (r: i64)
        ensures
            r == self.spec_position(),
    {
        self.position
    }

    /// The volume times the fade, limited to the range of a sample.
    pub fn effective_volume(&self) -> (r: i32)
        ensures
            r == clamp_sample(scale(self.spec_volume().spec_value(), self.spec_fade().0)),
    {
        crate::frame::scale_sample(self.volume.value(), self.fade_volume.value())
    }

    /// The mixer track the instance plays into.
    pub fn track(&self) -> (r: TrackIndex)
        ensures
            r == self.spec_track(),
    {
        self.track
    }

    /// The groups the instance's sound is tagged with.
    pub fn groups(&self) -> (r: &Vec<u64>)
        ensures
            r@ == self.spec_groups(),
    {
        &self.groups
    }

    /// Whether the instance produces sound and advances.
    pub fn playing(&self) -> (r: bool)
        ensures
            r == is_playing(self.spec_state()),
    {
        match self.state {
            InstanceState::Playing => true,
            InstanceState::Paused(_) => false,
            InstanceState::Stopped => false,
            InstanceState::Pausing(_) => true,
            InstanceState::Stopping => true,
        }
    }

    /// Whether the instance has stopped for good.
    pub fn finished(&self) -> (r: bool)
        ensures
            r == (self.spec_state() == InstanceState::Stopped),
    {
        self.state == InstanceState::Stopped
    }

    fn set_state(&mut self, state: InstanceState)
        ensures
            *final(self) == (Instance { state, ..*old(self) }),
    {
        self.state = state;
        self.controller.state.store(state.code(), Ordering::Relaxed);
    }

    /// The sound, data, length, direction, loop, groups and track of `self`
    /// and `other` agree.
    pub open spec fn same_voice(&self, other: &Instance) -> bool {
        &&& self.spec_sound_id() == other.spec_sound_id()
        &&& self.spec_data() == other.spec_data()
        &&& self.spec_duration() == other.spec_duration()
        &&& self.spec_reverse() == other.spec_reverse()
        &&& self.spec_loop_start() == other.spec_loop_start()
        &&& self.spec_groups() == other.spec_groups()
        &&& self.spec_track() == other.spec_track()
    }

    /// The volume, playback rate and panning of `self` and `other` agree.
    pub open spec fn same_values(&self, other: &Instance) -> bool {
        &&& self.spec_volume() == other.spec_volume()
        &&& self.spec_playback_rate() == other.spec_playback_rate()
        &&& self.spec_panning() == other.spec_panning()
    }

    /// Pauses a playing instance: at once without a fade, or through a
    /// fade-out that ends in the pause. An instance that is not playing is
    /// left as it is.
    pub fn pause(&mut self, settings: PauseInstanceSettings)
        requires
            old(self).wf(),
        ensures
            final(self).wf(),
            final(self).same_voice(old(self)),
            final(self).same_values(old(self)),
            final(self).spec_position() == old(self).spec_position(),
            final(self).spec_state() == paused_state(old(self).spec_state(), old(self).spec_position(), settings),
            old(self).spec_state() == InstanceState::Playing ==> final(self).spec_fade() == set_model(
                old(self).spec_fade(),
                0,
                settings.fade_tween,
            ),
            old(self).spec_state() != InstanceState::Playing ==> final(self).spec_fade() == old(self).spec_fade(),
    {
        if self.state == InstanceState::Playing {
            let position = self.position;
            match settings.fade_tween {
                Some(_) => self.set_state(InstanceState::Pausing(position)),
                None => self.set_state(InstanceState::Paused(position)),
            }
            self.fade_volume.set(0, settings.fade_tween);
        }
    }

    /// Resumes a paused or pausing instance: it plays again, from where it
    /// was paused if asked to, and its fade returns to 1 at once or along the
    /// given tween. Any other instance is left as it is.
    pub fn resume(&mut self, settings: ResumeInstanceSettings)
        requires
            old(self).wf(),
        ensures
            final(self).wf(),
            final(self).same_voice(old(self)),
            final(self).same_values(old(self)),
            (final(self).spec_state(), final(self).spec_position()) == resumed(
                old(self).spec_state(),
                old(self).spec_position(),
                settings,
            ),
            is_paused(old(self).spec_state()) ==> final(self).spec_fade() == set_model(
                old(self).spec_fade(),
                UNIT,
                settings.fade_tween,
            ),
            !is_paused(old(self).spec_state()) ==> final(self).spec_fade() == old(self).spec_fade(),
    {
        match self.state {
            InstanceState::Paused(position) | InstanceState::Pausing(position) => {
                self.set_state(InstanceState::Playing);
                if settings.rewind_to_pause_position {
                    self.position = position;
                }
                self.fade_volume.set(UNIT, settings.fade_tween);
            },
            _ => {},
        }
    }

    /// Stops an instance that has not stopped yet: at once without a fade,
    /// or through a fade-out that ends in the stop.
    pub fn stop(&mut self, settings: StopInstanceSettings)
        requires
            old(self).wf(),
        ensures
            final(self).wf(),
            final(self).same_voice(old(self)),
            final(self).same_values(old(self)),
            final(self).spec_position() == old(self).spec_position(),
            final(self).spec_state() == stopped_state(old(self).spec_state(), settings),
            old(self).spec_state() != InstanceState::Stopped ==> final(self).spec_fade() == set_model(
                old(self).spec_fade(),
                0,
                settings.fade_tween,
            ),
            old(self).spec_state() == InstanceState::Stopped ==> final(self).spec_fade() == old(self).spec_fade(),
    {
        if self.state != InstanceState::Stopped {
            match settings.fade_tween {
                Some(_) => self.set_state(InstanceState::Stopping),
                None => self.set_state(InstanceState::Stopped),
            }
            self.fade_volume.set(0, settings.fade_tween);
        }
    }

    /// Moves the playback position by `offset`.
    pub fn seek(&mut self, offset: i64)
        requires
            old(self).wf(),
        ensures
            final(self).wf(),
            final(self).same_voice(old(self)),
            final(self).same_values(old(self)),
            final(self).spec_state() == old(self).spec_state(),
            final(self).spec_fade() == old(self).spec_fade(),
            final(self).spec_position() == clamp_position(old(self).spec_position() + offset),
    {
        self.position = clamp_position_exec(self.position as i128 + offset as i128);
    }

    /// Moves the playback position to `position`.
    pub fn seek_to(&mut self, position: i64)
        requires
            old(self).wf(),
        ensures
            final(self).wf(),
            final(self).same_voice(old(self)),
            final(self).same_values(old(self)),
            final(self).spec_state() == old(self).spec_state(),
            final(self).spec_fade() == old(self).spec_fade(),
            final(self).spec_position() == clamp_position(position as int),
    {
        self.position = clamp_position_exec(position as i128);
    }

    /// Sets the volume.
    pub fn set_volume(&mut self, volume: Value)
        requires
            old(self).wf(),
        ensures
            final(self).wf(),
            final(self).same_voice(old(self)),
            final(self).spec_state() == old(self).spec_state(),
            final(self).spec_position() == old(self).spec_position(),
            final(self).spec_fade() == old(self).spec_fade(),
            final(self).spec_volume().spec_setting() == volume,
            final(self).spec_playback_rate() == old(self).spec_playback_rate(),
            final(self).spec_panning() == old(self).spec_panning(),
    {
        self.volume.set(volume);
    }

    /// Sets the playback rate.
    pub fn set_playback_rate(&mut self, playback_rate: Value)
        requires
            old(self).wf(),
        ensures
            final(self).wf(),
            final(self).same_voice(old(self)),
            final(self).spec_state() == old(self).spec_state(),
            final(self).spec_position() == old(self).spec_position(),
            final(self).spec_fade() == old(self).spec_fade(),
            final(self).spec_playback_rate().spec_setting() == playback_rate,
            final(self).spec_volume() == old(self).spec_volume(),
            final(self).spec_panning() == old(self).spec_panning(),
    {
        self.playback_rate.set(playback_rate);
    }

    /// Sets the panning.
    pub fn set_panning(&mut self, panning: Value)
        requires
            old(self).wf(),
        ensures
            final(self).wf(),
            final(self).same_voice(old(self)),
            final(self).spec_state() == old(self).spec_state(),
            final(self).spec_position() == old(self).spec_position(),
            final(self).spec_fade() == old(self).spec_fade(),
            final(self).spec_panning().spec_setting() == panning,
            final(self).spec_volume() == old(self).spec_volume(),
            final(self).spec_playback_rate() == old(self).spec_playback_rate(),
    {
        self.panning.set(panning);
    }

    /// Advances the instance by `dt` ticks.
    ///
    /// A playing instance refreshes its values from `parameters`, moves by its
    /// playback rate (negated when reversed), and then wraps around its loop or
    /// stops at the end of the sound. Every instance then advances its fade;
    /// a fade that finishes completes a pause or a stop in progress.
    pub fn update(&mut self, dt: u32, parameters: &Parameters)
        requires
            old(self).wf(),
        ensures
            final(self).wf(),
            updated_by(*old(self), *final(self), dt, parameters),
    {
        if self.playing() {
            self.volume.update(parameters);
            self.playback_rate.update(parameters);
            self.panning.update(parameters);
            let rate = self.playback_rate.value() as i64;
            let eff: i64 = if self.reverse { -rate } else { rate };
            proof {
                assert(-0x8000_0000 <= eff <= 0x8000_0000);
                assert(-0x8000_0000_0000_0000 <= eff * dt <= 0x8000_0000_0000_0000) by (nonlinear_arith)
                    requires
                        -0x8000_0000 <= eff <= 0x8000_0000,
                        0 <= dt <= 0xffff_ffff,
                ;
            }
            let moved = clamp_position_exec(self.position as i128 + eff as i128 * dt as i128);
            if eff < 0 {
                match self.loop_start {
                    Some(l) if l < self.duration => {
                        self.position = wrap_backward_exec(moved, self.duration, l);
                    },
                    _ => {
                        self.position = moved;
                        if moved < 0 {
                            self.set_state(InstanceState::Stopped);
                        }
                    },
                }
            } else {
                match self.loop_start {
                    Some(l) if l < self.duration => {
                        self.position = wrap_forward_exec(moved, self.duration, l);
                    },
                    _ => {
                        self.position = moved;
                        if moved > self.duration {
                            self.set_state(InstanceState::Stopped);
                        }
                    },
                }
            }
        }
        let finished = self.fade_volume.update(dt);
        if finished {
            match self.state {
                InstanceState::Pausing(position) => {
                    self.set_state(InstanceState::Paused(position));
                },
                InstanceState::Stopping => {
                    self.set_state(InstanceState::Stopped);
                },
                _ => {},
            }
        }
        self.controller.position.store(self.position, Ordering::Relaxed);
    }

    /// Stops the instance at once if the control thread asked for a stop
    /// through its handle; otherwise leaves it as it is.
    pub fn update_from_controller(&mut self)
        requires
            old(self).wf(),
        ensures
            final(self).wf(),
            final(self).same_voice(old(self)),
            final(self).same_values(old(self)),
            final(self).spec_position() == old(self).spec_position(),
            final(self).spec_state() == old(self).spec_state() || final(self).spec_state()
                == InstanceState::Stopped,
    {
        if self.controller.state.load(Ordering::Relaxed) == STOPPED_CODE {
            self.stop(StopInstanceSettings { fade_tween: None });
        }
    }

    /// The frame the instance contributes at its current position: the
    /// sound's frame, panned, then scaled by the volume times the fade.
    /// Silence when the instance is not playing.
    pub fn get_sample(&self) -> (r: Frame)
        requires
            self.wf(),
        ensures
            r == instance_output(*self),
    {
        if !self.playing() {
            return Frame { left: 0, right: 0 };
        }
        let frame = self.data.frame_at(self.position);
        let panning = self.panning.value();
        let gain = self.effective_volume();
        frame.panned(panning).scaled(gain)
    }

    /// Carries out `command` on this instance.
    pub fn run_command(&mut self, command: InstanceCommand)
        requires
            old(self).wf(),
        ensures
            final(self).wf(),
            commanded(*old(self), *final(self), command),
    {
        match command {
            InstanceCommand::Pause(settings) => self.pause(settings),
            InstanceCommand::Resume(settings) => self.resume(settings),
            InstanceCommand::Stop(settings) => self.stop(settings),
            InstanceCommand::Seek(offset) => self.seek(offset),
            InstanceCommand::SeekTo(position) => self.seek_to(position),
            InstanceCommand::SetVolume(volume) => self.set_volume(volume),
            InstanceCommand::SetPlaybackRate(rate) => self.set_playback_rate(rate),
            InstanceCommand::SetPanning(panning) => self.set_panning(panning),
        }
    }
}

/// Something the control thread asks of an instance.
#[derive(Debug, Clone, Copy)]
pub enum InstanceCommand {
    Pause(PauseInstanceSettings),
    Resume(ResumeInstanceSettings),
    Stop(StopInstanceSettings),
    Seek(i64),
    SeekTo(i64),
    SetVolume(Value),
    SetPlaybackRate(Value),
    SetPanning(Value),
}

/// How carrying out `command` takes the instance `old` to `new`.
pub open spec fn commanded(old: Instance, new: Instance, command: InstanceCommand) -> bool {
    &&& new.same_voice(&old)
    &&& match command {
        InstanceCommand::Pause(s) => {
            &&& new.spec_state() == paused_state(old.spec_state(), old.spec_position(), s)
            &&& new.spec_position() == old.spec_position()
            &&& new.spec_fade() == if old.spec_state() == InstanceState::Playing {
                set_model(old.spec_fade(), 0, s.fade_tween)
            } else {
                old.spec_fade()
            }
            &&& new.same_values(&old)
        },
        InstanceCommand::Resume(s) => {
            &&& (new.spec_state(), new.spec_position()) == resumed(old.spec_state(), old.spec_position(), s)
            &&& new.spec_fade() == if is_paused(old.spec_state()) {
                set_model(old.spec_fade(), UNIT, s.fade_tween)
            } else {
                old.spec_fade()
            }
            &&& new.same_values(&old)
        },
        InstanceCommand::Stop(s) => {
            &&& new.spec_state() == stopped_state(old.spec_state(), s)
            &&& new.spec_position() == old.spec_position()
            &&& new.spec_fade() == if old.spec_state() != InstanceState::Stopped {
                set_model(old.spec_fade(), 0, s.fade_tween)
            } else {
                old.spec_fade()
            }
            &&& new.same_values(&old)
        },
        InstanceCommand::Seek(offset) => {
            &&& new.spec_state() == old.spec_state()
            &&& new.spec_position() == clamp_position(old.spec_position() + offset)
            &&& new.spec_fade() == old.spec_fade()
            &&& new.same_values(&old)
        },
        InstanceCommand::SeekTo(position) => {
            &&& new.spec_state() == old.spec_state()
            &&& new.spec_position() == clamp_position(position as int)
            &&& new.spec_fade() == old.spec_fade()
            &&& new.same_values(&old)
        },
        InstanceCommand::SetVolume(v) => {
            &&& new.spec_state() == old.spec_state()
            &&& new.spec_position() == old.spec_position()
            &&& new.spec_fade() == old.spec_fade()
            &&& new.spec_volume().spec_setting() == v
            &&& new.spec_playback_rate() == old.spec_playback_rate()
            &&& new.spec_panning() == old.spec_panning()
        },
        InstanceCommand::SetPlaybackRate(v) => {
            &&& new.spec_state() == old.spec_state()
            &&& new.spec_position() == old.spec_position()
            &&& new.spec_fade() == old.spec_fade()
            &&& new.spec_playback_rate().spec_setting() == v
            &&& new.spec_volume() == old.spec_volume()
            &&& new.spec_panning() == old.spec_panning()
        },
        InstanceCommand::SetPanning(v) => {
            &&& new.spec_state() == old.spec_state()
            &&& new.spec_position() == old.spec_position()
            &&& new.spec_fade() == old.spec_fade()
            &&& new.spec_panning().spec_setting() == v
            &&& new.spec_volume() == old.spec_volume()
            &&& new.spec_playback_rate() == old.spec_playback_rate()
        },
    }
}

/// How one tick of `dt` ticks against `parameters` takes the instance
/// `old` to `new`: see [`Instance::update`].
pub open spec fn updated_by(old: Instance, new: Instance, dt: u32, parameters: &Parameters) -> bool {
    let playing = is_playing(old.spec_state());
    let rate = refreshed_value(old.spec_playback_rate(), parameters);
    let eff = if old.spec_reverse() { -rate } else { rate };
    let moved = clamp_position(old.spec_position() + eff * dt);
    let (landed, ended) = settle(moved, eff < 0, old.spec_duration(), old.spec_loop_start());
    let (fade, finished) = parameter_step(old.spec_fade(), dt as int);
    &&& new.same_voice(&old)
    &&& new.spec_position() == if playing { landed } else { old.spec_position() }
    &&& new.spec_state() == updated_state(old.spec_state(), ended, finished)
    &&& new.spec_fade() == fade
    &&& playing ==> new.spec_playback_rate().spec_last() == refreshed(
        old.spec_playback_rate().spec_setting(),
        old.spec_playback_rate().spec_last(),
        parameters,
    )
    &&& playing ==> new.spec_volume().spec_last() == refreshed(
        old.spec_volume().spec_setting(),
        old.spec_volume().spec_last(),
        parameters,
    )
    &&& playing ==> new.spec_panning().spec_last() == refreshed(
        old.spec_panning().spec_setting(),
        old.spec_panning().spec_last(),
        parameters,
    )
    &&& !playing ==> new.same_values(&old)
    &&& new.spec_volume().spec_setting() == old.spec_volume().spec_setting()
    &&& new.spec_playback_rate().spec_setting() == old.spec_playback_rate().spec_setting()
    &&& new.spec_panning().spec_setting() == old.spec_panning().spec_setting()
    &&& new.spec_volume().spec_min() == old.spec_volume().spec_min()
    &&& new.spec_volume().spec_max() == old.spec_volume().spec_max()
    &&& new.spec_playback_rate().spec_min() == old.spec_playback_rate().spec_min()
    &&& new.spec_playback_rate().spec_max() == old.spec_playback_rate().spec_max()
}

/// The frame an instance contributes at its current position.
pub open spec fn instance_output(i: Instance) -> Frame {
    if !is_playing(i.spec_state()) {
        Frame { left: 0, right: 0 }
    } else {
        let f = i.spec_data().spec_frame_at(i.spec_position());
        let pan = i.spec_panning().spec_value();
        let gain = clamp_sample(scale(i.spec_volume().spec_value(), i.spec_fade().0));
        let l = clamp_sample(scale(f.left as int, left_gain(pan)));
        let r = clamp_sample(scale(f.right as int, right_gain(pan)));
        Frame { left: clamp_sample(scale(l, gain)) as i32, right: clamp_sample(scale(r, gain)) as i32 }
    }
}

} // verus!
