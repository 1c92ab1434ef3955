use vstd::prelude::*;
use crate::config::Config;
use crate::ipc::{TapPolicy, command_outcome, whole_ms};
use crate::protocol::Command;
use crate::protocol::Status;
use crate::sound::Effect;
use crate::state::{AppModel, AppState, elapsed_spec};
use crate::text::{trim, trim_spec};

verus! {

/// How long an error stays on the overlay before it clears, in nanoseconds.
pub const ERROR_DISPLAY_NS: u64 = 3_000_000_000;

/// Memory of the poll loop between ticks.
pub struct LoopState {
    /// Whether the previous tick saw a recording in progress.
    pub was_recording: bool,
    /// When the error currently shown was raised, if one is.
    pub error_clear_time: Option<u64>,
}

impl LoopState {
    pub fn new() -> (l: LoopState)
        ensures
            !l.was_recording,
            l.error_clear_time is None,
    {
        LoopState { was_recording: false, error_clear_time: None }
    }
}

/// What the poll loop must do after a tick.
pub enum TickAction<S> {
    /// Nothing.
    Idle,
    /// The press was promoted to a recording: play the start sound.
    Promoted,
    /// A tap shorter than the minimum hold was discarded silently.
    QuickTapDiscarded,
    /// The recording ended but nothing was captured (play the stop sound).
    NothingCaptured,
    /// The recording ended: play the stop sound and transcribe these samples.
    Transcribe(Vec<S>),
}

/// Abstract value of a [`TickAction`].
pub ghost enum TickPlan<S> {
    Idle,
    Promoted,
    QuickTapDiscarded,
    NothingCaptured,
    Transcribe(Seq<S>),
}

impl<S> View for TickAction<S> {
    type V = TickPlan<S>;

    open spec fn view(&self) -> TickPlan<S> {
        match self {
            TickAction::Idle => TickPlan::Idle,
            TickAction::Promoted => TickPlan::Promoted,
            TickAction::QuickTapDiscarded => TickPlan::QuickTapDiscarded,
            TickAction::NothingCaptured => TickPlan::NothingCaptured,
            TickAction::Transcribe(a) => TickPlan::Transcribe(a@),
        }
    }
}

/// The sound a tick calls for, if any.
pub open spec fn tick_sound<S>(a: TickPlan<S>) -> Option<Effect> {
    match a {
        TickPlan::Promoted => Some(Effect::Start),
        TickPlan::NothingCaptured => Some(Effect::Stop),
        TickPlan::Transcribe(_) => Some(Effect::Stop),
        _ => None,
    }
}

impl<S> TickAction<S> {
    /// The sound effect this action calls for.
    pub fn sound(&self) -> (e: Option<Effect>)
        ensures
            e == tick_sound(self@),
    {
        match self {
            TickAction::Promoted => Some(Effect::Start),
            TickAction::NothingCaptured => Some(Effect::Stop),
            TickAction::Transcribe(_) => Some(Effect::Stop),
            _ => None,
        }
    }
}

/// The settings the poll loop reads.
pub ghost struct HoldPolicy {
    pub min_ms: u64,
    pub max_prepare_ms: u64,
}

pub open spec fn hold_policy(c: Config) -> HoldPolicy {
    HoldPolicy { min_ms: c.minimum_key_time_ms, max_prepare_ms: c.max_preparing_duration_ms }
}

/// How long the current recording has run (no time if none started).
pub open spec fn held_for<S>(m: AppModel<S>, now: u64) -> nat {
    match m.recording_start {
        Some(t) => elapsed_spec(t, now),
        None => 0,
    }
}

/// An error older than the display time is cleared and the overlay hidden.
pub open spec fn after_error_timeout<S>(m: AppModel<S>, clear: Option<u64>, now: u64) -> (AppModel<S>, Option<u64>) {
    match clear {
        Some(t) => if elapsed_spec(t, now) > ERROR_DISPLAY_NS {
            (AppModel { error: None, status: Status::Hidden, ..m }, None)
        } else {
            (m, clear)
        },
        None => (m, clear),
    }
}

/// One tick of the poll loop at clock reading `now`, given whether the
/// current peak level counts as speech: the new state, the new loop memory
/// (`was_recording`, error time) and what the loop must do next.
pub open spec fn tick_spec<S>(
    m0: AppModel<S>,
    was_recording: bool,
    clear0: Option<u64>,
    p: HoldPolicy,
    now: u64,
    has_audio: bool,
) -> (AppModel<S>, bool, Option<u64>, TickPlan<S>) {
    let (m, clear) = after_error_timeout(m0, clear0, now);
    let rec = m.recording;
    if m.status == Status::Preparing && rec {
        let held = held_for(m, now);
        if whole_ms(held) >= p.min_ms && (has_audio || whole_ms(held) >= p.max_prepare_ms) {
            (AppModel { status: Status::Recording, ..m }, rec, clear, TickPlan::Promoted)
        } else {
            (m, rec, clear, TickPlan::Idle)
        }
    } else if was_recording && !rec {
        let held = held_for(m, now);
        let m1 = AppModel { recording_start: None, ..m };
        if whole_ms(held) < p.min_ms {
            (AppModel { status: Status::Hidden, audio: Seq::empty(), ..m1 }, rec, clear, TickPlan::QuickTapDiscarded)
        } else if m1.audio.len() == 0 {
            (AppModel { status: Status::Hidden, ..m1 }, rec, clear, TickPlan::NothingCaptured)
        } else {
            (
                AppModel { status: Status::Transcribing, audio: Seq::empty(), ..m1 },
                rec,
                clear,
                TickPlan::Transcribe(m1.audio),
            )
        }
    } else {
        (m, rec, clear, TickPlan::Idle)
    }
}

/// One tick of the poll loop at clock reading `now`. `has_audio` says whether
/// the current peak level reaches the promotion threshold.
///
/// It clears an error that has been shown long enough, promotes a press that
/// has been held past the minimum time (once speech is heard, or once the
/// longest preparing time has passed), and when a recording has just stopped
/// either discards a quick tap or hands the captured audio out for
/// transcription.
pub fn tick<S: Copy>(state: &mut AppState<S>, lp: &mut LoopState, config: &Config, now: u64, has_audio: bool) -> (a: TickAction<S>)
    ensures
        ({
            let out = tick_spec(old(state)@, old(lp).was_recording, old(lp).error_clear_time, hold_policy(*config), now, has_audio);
            &&& final(state)@ == out.0
            &&& final(lp).was_recording == out.1
            &&& final(lp).error_clear_time == out.2
            &&& a@ == out.3
        }),
{
    if let Some(t) = lp.error_clear_time {
        if crate::state::elapsed(t, now) > ERROR_DISPLAY_NS {
            state.set_error(None);
            state.set_status(Status::Hidden);
            lp.error_clear_time = None;
        }
    }
    let is_recording = state.is_recording();
    let current_status = state.status;
    let min_ms = config.minimum_key_time_ms;
    let action;
    if current_status == Status::Preparing && is_recording {
        let held = match state.recording_duration(now) {
            Some(d) => d,
            None => 0,
        };
        if held / 1_000_000 >= min_ms && (has_audio || held / 1_000_000 >= config.max_preparing_duration_ms) {
            state.set_status(Status::Recording);
            action = TickAction::Promoted;
        } else {
            action = TickAction::Idle;
        }
    } else if lp.was_recording && !is_recording {
        let held = match state.recording_duration(now) {
            Some(d) => d,
            None => 0,
        };
        state.recording_start = None;
        if held / 1_000_000 < min_ms {
            // Quick tap: silently discard without overlay flash or sound.
            state.set_status(Status::Hidden);
            state.clear_audio();
            action = TickAction::QuickTapDiscarded;
        } else {
            state.set_status(Status::Transcribing);
            let audio = state.take_audio();
            if audio.len() == 0 {
                assert(audio@ =~= Seq::<S>::empty());
                state.set_status(Status::Hidden);
                action = TickAction::NothingCaptured;
            } else {
                action = TickAction::Transcribe(audio);
            }
        }
    } else {
        action = TickAction::Idle;
    }
    lp.was_recording = is_recording;
    action
}

/// Whether captured audio must be resampled for the model.
pub fn needs_resample(native_rate: u32, model_rate: u32) -> (b: bool)
    ensures
        b == (native_rate != model_rate),
{
    native_rate != model_rate
}

/// The state after a step of the transcription job fails at `now` with
/// `prefix` + `complaint`: the message is shown as an error, scheduled to clear.
pub open spec fn job_failed<S>(m: AppModel<S>, message: Seq<char>) -> AppModel<S> {
    AppModel { error: Some(message), status: Status::Error, ..m }
}

fn fail_job<S: Copy>(state: &mut AppState<S>, lp: &mut LoopState, prefix: &str, complaint: &str, now: u64)
    ensures
        final(state)@ == job_failed(old(state)@, prefix@ + complaint@),
        final(lp).error_clear_time == Some(now),
        final(lp).was_recording == old(lp).was_recording,
{
    let mut msg = String::from_str(prefix);
    msg.append(complaint);
    state.set_error(Some(msg));
    state.set_status(Status::Error);
    lp.error_clear_time = Some(now);
}

/// Resampling the captured audio finished at `now` with `result` (the
/// resampled samples, or the resampler's complaint). Returns the samples to
/// transcribe: the resampled ones on success; on failure nothing is
/// transcribed and the error is shown, scheduled to clear.
pub fn resample_finished<S: Copy>(state: &mut AppState<S>, lp: &mut LoopState, result: Result<Vec<S>, String>, now: u64) -> (audio: Option<Vec<S>>)
    ensures
        final(lp).was_recording == old(lp).was_recording,
        match result {
            Ok(samples) => {
                &&& audio matches Some(a) && a@ == samples@
                &&& final(state)@ == old(state)@
                &&& final(lp).error_clear_time == old(lp).error_clear_time
            },
            Err(e) => {
                &&& audio is None
                &&& final(state)@ == job_failed(old(state)@, "Resampling failed: "@ + e@)
                &&& final(lp).error_clear_time == Some(now)
            },
        },
{
    match result {
        Ok(samples) => Some(samples),
        Err(e) => {
            fail_job(state, lp, "Resampling failed: ", e.as_str(), now);
            None
        },
    }
}

/// The transcription finished at `now` with `result` (the text, or the
/// engine's complaint). Returns the text to type: the transcription without
/// surrounding white space, unless that is empty.
pub fn transcription_finished<S: Copy>(state: &mut AppState<S>, lp: &mut LoopState, result: Result<String, String>, now: u64) -> (typed: Option<String>)
    ensures
        final(lp).was_recording == old(lp).was_recording,
        match result {
            Ok(text) => {
                let t = trim_spec(text@);
                &&& final(lp).error_clear_time == old(lp).error_clear_time
                &&& if t.len() > 0 {
                    &&& final(state)@ == (AppModel { last_result: Some(t), ..old(state)@ })
                    &&& typed matches Some(s) && s@ == t
                } else {
                    &&& final(state)@ == (AppModel { status: Status::Hidden, ..old(state)@ })
                    &&& typed is None
                }
            },
            Err(e) => {
                &&& final(state)@ == job_failed(old(state)@, "Transcription failed: "@ + e@)
                &&& final(lp).error_clear_time == Some(now)
                &&& typed is None
            },
        },
{
    match result {
        Ok(text) => {
            let t = trim(text.as_str());
            if t.unicode_len() > 0 {
                state.set_result(t.clone());
                Some(t)
            } else {
                state.set_status(Status::Hidden);
                None
            }
        },
        Err(e) => {
            fail_job(state, lp, "Transcription failed: ", e.as_str(), now);
            None
        },
    }
}

/// Typing the transcription finished at `now` with `result`. On success the
/// overlay hides and the paste sound is due.
pub fn typing_finished<S: Copy>(state: &mut AppState<S>, lp: &mut LoopState, result: Result<(), String>, now: u64) -> (e: Option<Effect>)
    ensures
        final(lp).was_recording == old(lp).was_recording,
        match result {
            Ok(()) => {
                &&& final(state)@ == (AppModel { status: Status::Hidden, ..old(state)@ })
                &&& final(lp).error_clear_time == old(lp).error_clear_time
                &&& e == Some(Effect::Paste)
            },
            Err(msg) => {
                &&& final(state)@ == job_failed(old(state)@, "Paste failed: "@ + msg@)
                &&& final(lp).error_clear_time == Some(now)
                &&& e is None
            },
        },
{
    match result {
        Ok(()) => {
            state.set_status(Status::Hidden);
            Some(Effect::Paste)
        },
        Err(msg) => {
            fail_job(state, lp, "Paste failed: ", msg.as_str(), now);
            None
        },
    }
}


/// A recording released before the minimum hold time is discarded silently:
/// no sound, no transcription, the captured audio is dropped and the overlay
/// hides.
pub proof fn lemma_quick_tap_discarded<S>(m: AppModel<S>, clear: Option<u64>, p: HoldPolicy, now: u64, has_audio: bool)
    requires
        !m.recording,
        whole_ms(held_for(m, now)) < p.min_ms,
    ensures
        ({
            let out = tick_spec(m, true, clear, p, now, has_audio);
            &&& out.3 == TickPlan::<S>::QuickTapDiscarded
            &&& tick_sound(out.3) is None
            &&& out.0.status == Status::Hidden
            &&& out.0.audio.len() == 0
            &&& out.0.recording_start is None
        }),
{
}

/// A press is not promoted to a recording before the minimum hold time.
pub proof fn lemma_no_promotion_before_minimum_hold<S>(m: AppModel<S>, was: bool, clear: Option<u64>, p: HoldPolicy, now: u64, has_audio: bool)
    requires
        m.recording,
        whole_ms(held_for(m, now)) < p.min_ms,
    ensures
        tick_spec(m, was, clear, p, now, has_audio).3 == TickPlan::<S>::Idle,
        tick_spec(m, was, clear, p, now, has_audio).0.status == after_error_timeout(m, clear, now).0.status,
{
}

/// A press held past the minimum time is promoted once speech is heard, and
/// in any case once the longest preparing time has passed.
pub proof fn lemma_promotion<S>(m: AppModel<S>, was: bool, p: HoldPolicy, now: u64, has_audio: bool)
    requires
        m.recording,
        m.status == Status::Preparing,
        whole_ms(held_for(m, now)) >= p.min_ms,
        has_audio || whole_ms(held_for(m, now)) >= p.max_prepare_ms,
    ensures
        tick_spec(m, was, None, p, now, has_audio).3 == TickPlan::<S>::Promoted,
        tick_spec(m, was, None, p, now, has_audio).0 == (AppModel { status: Status::Recording, ..m }),
{
}

/// An error shown for longer than the display time is cleared.
pub proof fn lemma_error_clears<S>(m: AppModel<S>, was: bool, t: u64, p: HoldPolicy, now: u64, has_audio: bool)
    requires
        elapsed_spec(t, now) > ERROR_DISPLAY_NS,
    ensures
        tick_spec(m, was, Some(t), p, now, has_audio).0.error is None,
        tick_spec(m, was, Some(t), p, now, has_audio).2 is None,
{
}

/// A recording held long enough hands out exactly the captured audio for
/// transcription, with the stop sound, and leaves the buffer empty.
pub proof fn lemma_release_transcribes_captured_audio<S>(m: AppModel<S>, clear: Option<u64>, p: HoldPolicy, now: u64, has_audio: bool)
    requires
        !m.recording,
        whole_ms(held_for(m, now)) >= p.min_ms,
        m.audio.len() > 0,
    ensures
        ({
            let out = tick_spec(m, true, clear, p, now, has_audio);
            &&& out.3 == TickPlan::Transcribe(m.audio)
            &&& tick_sound(out.3) == Some(Effect::Stop)
            &&& out.0.status == Status::Transcribing
            &&& out.0.audio.len() == 0
        }),
{
}

/// An error on the overlay is scheduled to clear.
pub open spec fn error_scheduled<S>(m: AppModel<S>, clear: Option<u64>) -> bool {
    m.status == Status::Error ==> clear is Some
}

/// Ticks keep every shown error scheduled to clear.
pub proof fn lemma_tick_keeps_error_scheduled<S>(m: AppModel<S>, was: bool, clear: Option<u64>, p: HoldPolicy, now: u64, has_audio: bool)
    requires
        error_scheduled(m, clear),
    ensures
        ({
            let out = tick_spec(m, was, clear, p, now, has_audio);
            error_scheduled(out.0, out.2)
        }),
{
}

/// Client commands keep every shown error scheduled to clear.
pub proof fn lemma_commands_keep_error_scheduled<S>(m: AppModel<S>, cmd: Command, tp: TapPolicy, now: u64, clear: Option<u64>)
    requires
        error_scheduled(m, clear),
    ensures
        error_scheduled(command_outcome(m, cmd, tp, now).0, clear),
{
}

/// A failed job step shows its error and schedules it to clear.
pub proof fn lemma_failed_job_is_scheduled<S>(m: AppModel<S>, message: Seq<char>, now: u64)
    ensures
        error_scheduled(job_failed(m, message), Some(now)),
        job_failed(m, message).error == Some(message),
{
}

/// The sounds a tick calls for: the start sound exactly when a press is
/// promoted to a recording, the stop sound exactly when a recording ends with
/// something to report (nothing captured, or audio to transcribe), and no
/// sound otherwise; in particular a tick that does nothing plays nothing, and
/// no tick plays the cancel or paste sound.
pub proof fn lemma_tick_sounds<S>(m: AppModel<S>, was: bool, clear: Option<u64>, p: HoldPolicy, now: u64, has_audio: bool)
    ensures
        ({
            let out = tick_spec(m, was, clear, p, now, has_audio);
            let snd = tick_sound(out.3);
            &&& out.3 is Idle ==> snd is None
            &&& out.3 is QuickTapDiscarded ==> snd is None
            &&& (snd == Some(Effect::Start)) == (out.3 is Promoted)
            &&& (snd == Some(Effect::Stop)) == (out.3 is NothingCaptured || out.3 is Transcribe)
            &&& snd != Some(Effect::Cancel)
            &&& snd != Some(Effect::Paste)
        }),
{
}

/// A tick that calls for no action changes nothing beyond clearing an error
/// that has been shown long enough.
pub proof fn lemma_idle_tick_changes_nothing<S>(m: AppModel<S>, was: bool, clear: Option<u64>, p: HoldPolicy, now: u64, has_audio: bool)
    ensures
        ({
            let out = tick_spec(m, was, clear, p, now, has_audio);
            out.3 is Idle ==> out.0 == after_error_timeout(m, clear, now).0 && tick_sound(out.3) is None
        }),
{
}

} // verus!
