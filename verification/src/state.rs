use vstd::prelude::*;
use crate::protocol::{DaemonState, DaemonStateView, Meter, Status, opt_string_view, silent_meter};

verus! {

/// Pre-roll buffer size in samples. At 16 kHz this is ~500 ms;
/// at 48 kHz it is ~166 ms. Covers the latency from keypress to
/// the daemon receiving the start command.
pub const PRE_ROLL_SAMPLES: usize = 8000;

/// Time elapsed from `start` to `now`, on a monotonic clock counted in
/// nanoseconds; a reading earlier than `start` counts as no time at all.
pub open spec fn elapsed_spec(start: u64, now: u64) -> nat {
    if now >= start { (now - start) as nat } else { 0 }
}

/// Time elapsed from `start` to `now` (see [`elapsed_spec`]).
pub fn elapsed(start: u64, now: u64) -> (d: u64)
    ensures
        d == elapsed_spec(start, now),
{
    if now >= start { now - start } else { 0 }
}

/// Press-and-hold state of the dictation workflow. Clock readings are
/// nanoseconds of a monotonic clock; `S` is the audio sample type.
pub struct AppState<S> {
    pub status: Status,
    pub meter: Meter,
    pub recording: bool,
    pub locked_mode: bool,
    pub recording_start: Option<u64>,
    pub last_press_time: Option<u64>,
    pub audio_buffer: Vec<S>,
    pub last_result: Option<String>,
    pub error_message: Option<String>,
}

/// Abstract value of an [`AppState`].
pub ghost struct AppModel<S> {
    pub status: Status,
    pub meter: Meter,
    pub recording: bool,
    pub locked: bool,
    pub recording_start: Option<u64>,
    pub last_press: Option<u64>,
    pub audio: Seq<S>,
    pub last_result: Option<Seq<char>>,
    pub error: Option<Seq<char>>,
}

impl<S> View for AppState<S> {
    type V = AppModel<S>;

    open spec fn view(&self) -> AppModel<S> {
        AppModel {
            status: self.status,
            meter: self.meter,
            recording: self.recording,
            locked: self.locked_mode,
            recording_start: self.recording_start,
            last_press: self.last_press_time,
            audio: self.audio_buffer@,
            last_result: opt_string_view(self.last_result),
            error: opt_string_view(self.error_message),
        }
    }
}

/// The state of a freshly started daemon.
pub open spec fn initial_model<S>() -> AppModel<S> {
    AppModel {
        status: Status::Hidden,
        meter: silent_meter(),
        recording: false,
        locked: false,
        recording_start: None,
        last_press: None,
        audio: Seq::empty(),
        last_result: None,
        error: None,
    }
}

/// The snapshot that clients see of a state.
pub open spec fn snapshot<S>(m: AppModel<S>) -> DaemonStateView {
    DaemonStateView { status: m.status, meter: m.meter, message: m.error }
}

/// Starting a recording at `now`: the flag is raised, the start time noted and
/// the meter reset. The buffer is kept so the pre-roll audio survives.
pub open spec fn start_recording_spec<S>(m: AppModel<S>, now: u64) -> AppModel<S> {
    AppModel { recording: true, recording_start: Some(now), meter: silent_meter(), ..m }
}

/// The audio buffer after `samples` arrive: everything is kept, except that
/// while the overlay is hidden only the most recent pre-roll survives.
pub open spec fn append_audio_spec<S>(status: Status, buf: Seq<S>, samples: Seq<S>) -> Seq<S> {
    let all = buf + samples;
    if status == Status::Hidden && all.len() > PRE_ROLL_SAMPLES {
        all.subrange(all.len() - PRE_ROLL_SAMPLES, all.len() as int)
    } else {
        all
    }
}

fn clone_opt_string(o: &Option<String>) -> (r: Option<String>)
    ensures
        opt_string_view(r) == opt_string_view(*o),
{
    match o {
        Some(s) => Some(s.clone()),
        None => None,
    }
}

impl<S: Copy> AppState<S> {
    /// A fresh, idle state.
    pub fn new() -> (st: AppState<S>)
        ensures
            st@ == initial_model::<S>(),
    {
        AppState {
            status: Status::Hidden,
            meter: Meter::silent(),
            recording: false,
            locked_mode: false,
            recording_start: None,
            last_press_time: None,
            audio_buffer: Vec::new(),
            last_result: None,
            error_message: None,
        }
    }

    /// The snapshot broadcast to the overlay and clients.
    pub fn current(&self) -> (d: DaemonState)
        ensures
            d@ == snapshot(self@),
    {
        DaemonState { status: self.status, meter: self.meter, message: clone_opt_string(&self.error_message) }
    }

    pub fn set_status(&mut self, status: Status)
        ensures
            final(self)@ == (AppModel { status, ..old(self)@ }),
    {
        self.status = status;
    }

    /// Stores new meter readings (bit patterns of the average and peak power).
    pub fn set_meter(&mut self, avg_bits: u32, peak_bits: u32)
        ensures
            final(self)@ == (AppModel { meter: Meter { average_power_bits: avg_bits, peak_power_bits: peak_bits }, ..old(self)@ }),
    {
        self.meter = Meter { average_power_bits: avg_bits, peak_power_bits: peak_bits };
    }

    pub fn reset_meter(&mut self)
        ensures
            final(self)@ == (AppModel { meter: silent_meter(), ..old(self)@ }),
    {
        self.meter = Meter::silent();
    }

    pub fn is_recording(&self) -> (b: bool)
        ensures
            b == self@.recording,
    {
        self.recording
    }

    /// Starts recording at clock reading `now`. The buffer is not cleared:
    /// the pre-roll audio captured while waiting for the keypress stays.
    pub fn start_recording(&mut self, now: u64)
        ensures
            final(self)@ == start_recording_spec(old(self)@, now),
    {
        self.recording = true;
        self.recording_start = Some(now);
        self.reset_meter();
    }

    /// Stops recording and returns how long it ran, if it had started.
    pub fn stop_recording(&mut self, now: u64) -> (d: Option<u64>)
        ensures
            final(self)@ == (AppModel { recording: false, locked: false, recording_start: None, ..old(self)@ }),
            d == match old(self)@.recording_start {
                Some(t) => Some(elapsed_spec(t, now) as u64),
                None => None,
            },
    {
        self.recording = false;
        self.locked_mode = false;
        let start = self.recording_start.take();
        match start {
            Some(t) => Some(elapsed(t, now)),
            None => None,
        }
    }

    /// How long the current recording has run, if one has started.
    pub fn recording_duration(&self, now: u64) -> (d: Option<u64>)
        ensures
            d == match self@.recording_start {
                Some(t) => Some(elapsed_spec(t, now) as u64),
                None => None,
            },
    {
        match self.recording_start {
            Some(t) => Some(elapsed(t, now)),
            None => None,
        }
    }

    pub fn is_locked(&self) -> (b: bool)
        ensures
            b == self@.locked,
    {
        self.locked_mode
    }

    pub fn set_locked(&mut self, locked: bool)
        ensures
            final(self)@ == (AppModel { locked, ..old(self)@ }),
    {
        self.locked_mode = locked;
    }

    /// Time since the last press, if there was one.
    pub fn last_press_elapsed(&self, now: u64) -> (d: Option<u64>)
        ensures
            d == match self@.last_press {
                Some(t) => Some(elapsed_spec(t, now) as u64),
                None => None,
            },
    {
        match self.last_press_time {
            Some(t) => Some(elapsed(t, now)),
            None => None,
        }
    }

    /// Notes a press at clock reading `now`.
    pub fn record_press(&mut self, now: u64)
        ensures
            final(self)@ == (AppModel { last_press: Some(now), ..old(self)@ }),
    {
        self.last_press_time = Some(now);
    }

    pub fn clear_audio(&mut self)
        ensures
            final(self)@ == (AppModel { audio: Seq::empty(), ..old(self)@ }),
    {
        self.audio_buffer = Vec::new();
    }

    /// Appends captured samples. While the overlay is hidden only the most
    /// recent [`PRE_ROLL_SAMPLES`] are kept, so the idle buffer stays bounded.
    pub fn append_audio(&mut self, samples: &[S])
        requires
            old(self)@.audio.len() + samples@.len() <= usize::MAX,
        ensures
            final(self)@ == (AppModel { audio: append_audio_spec(old(self)@.status, old(self)@.audio, samples@), ..old(self)@ }),
    {
        let ghost all = self.audio_buffer@ + samples@;
        let old_len = self.audio_buffer.len();
        let total = old_len + samples.len();
        if self.status == Status::Hidden && total > PRE_ROLL_SAMPLES {
            let start = total - PRE_ROLL_SAMPLES;
            let mut kept: Vec<S> = Vec::new();
            let mut i = start;
            while i < total
                invariant
                    start <= i <= total,
                    total == all.len(),
                    old_len == self.audio_buffer@.len(),
                    all == self.audio_buffer@ + samples@,
                    kept@ == all.subrange(start as int, i as int),
                decreases total - i,
            {
                let x = if i < old_len { self.audio_buffer[i] } else { samples[i - old_len] };
                kept.push(x);
                i = i + 1;
                assert(kept@ =~= all.subrange(start as int, i as int));
            }
            self.audio_buffer = kept;
        } else {
            let mut j: usize = 0;
            while j < samples.len()
                invariant
                    j <= samples@.len(),
                    self.audio_buffer@ == all.subrange(0, old_len + j),
                    all.len() == old_len + samples@.len(),
                    all == old(self)@.audio + samples@,
                    self.status == old(self).status,
                    self.meter == old(self).meter,
                    self.recording == old(self).recording,
                    self.locked_mode == old(self).locked_mode,
                    self.recording_start == old(self).recording_start,
                    self.last_press_time == old(self).last_press_time,
                    self.last_result == old(self).last_result,
                    self.error_message == old(self).error_message,
                decreases samples@.len() - j,
            {
                self.audio_buffer.push(samples[j]);
                j = j + 1;
                assert(self.audio_buffer@ =~= all.subrange(0, old_len + j));
            }
            assert(all.subrange(0, all.len() as int) =~= all);
        }
    }

    /// Hands out the buffered audio, leaving the buffer empty.
    pub fn take_audio(&mut self) -> (a: Vec<S>)
        ensures
            a@ == old(self)@.audio,
            final(self)@ == (AppModel { audio: Seq::empty(), ..old(self)@ }),
    {
        let mut out: Vec<S> = Vec::new();
        std::mem::swap(&mut out, &mut self.audio_buffer);
        out
    }

    pub fn set_result(&mut self, text: String)
        ensures
            final(self)@ == (AppModel { last_result: Some(text@), ..old(self)@ }),
    {
        self.last_result = Some(text);
    }

    /// Hands out the last transcription, if any, leaving none behind.
    pub fn take_result(&mut self) -> (r: Option<String>)
        ensures
            opt_string_view(r) == old(self)@.last_result,
            final(self)@ == (AppModel { last_result: None, ..old(self)@ }),
    {
        self.last_result.take()
    }

    pub fn set_error(&mut self, msg: Option<String>)
        ensures
            final(self)@ == (AppModel { error: opt_string_view(msg), ..old(self)@ }),
    {
        self.error_message = msg;
    }
}

/// While the overlay is hidden the audio buffer never holds more than the
/// pre-roll, and what it holds is the most recent audio, in order.
pub proof fn lemma_idle_buffer_keeps_recent_pre_roll<S>(buf: Seq<S>, samples: Seq<S>)
    ensures
        ({
            let all = buf + samples;
            let kept = append_audio_spec(Status::Hidden, buf, samples);
            &&& kept.len() == if all.len() > PRE_ROLL_SAMPLES { PRE_ROLL_SAMPLES as nat } else { all.len() }
            &&& kept == all.subrange(all.len() - kept.len(), all.len() as int)
        }),
{
    let all = buf + samples;
    if all.len() <= PRE_ROLL_SAMPLES {
        assert(all.subrange(0, all.len() as int) =~= all);
    }
}

/// While a recording is shown the buffer keeps everything that arrives.
pub proof fn lemma_recording_buffer_keeps_everything<S>(status: Status, buf: Seq<S>, samples: Seq<S>)
    requires
        status != Status::Hidden,
    ensures
        append_audio_spec(status, buf, samples) == buf + samples,
{
}

/// While a recording is shown, the samples appended after the buffer is
/// cleared are all kept, in order: a later [`AppState::take_audio`] hands out
/// exactly `a` followed by `b` (and leaves the buffer empty).
pub proof fn lemma_appends_come_back_in_order<S>(status: Status, a: Seq<S>, b: Seq<S>)
    requires
        status != Status::Hidden,
    ensures
        append_audio_spec(status, append_audio_spec(status, Seq::empty(), a), b) == a + b,
{
    assert(Seq::<S>::empty() + a =~= a);
}

/// Starting a recording keeps the audio already buffered (the pre-roll).
pub proof fn lemma_start_keeps_pre_roll<S>(m: AppModel<S>, now: u64)
    ensures
        start_recording_spec(m, now).audio == m.audio,
        start_recording_spec(m, now).recording,
{
}

impl<S: Copy> Default for AppState<S> {
    fn default() -> (st: AppState<S>)
        ensures
            st@ == initial_model::<S>(),
    {
        AppState::new()
    }
}

} // verus!
