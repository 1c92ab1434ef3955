use vstd::prelude::*;
use crate::config::Config;
use crate::protocol::{Command, Response, ResponseView, Status, silent_meter};
use crate::state::{AppModel, AppState, elapsed_spec, snapshot, start_recording_spec};
use crate::text::{trim, trim_spec};

verus! {

/// The settings that decide how presses and releases are read.
pub ghost struct TapPolicy {
    pub lock_enabled: bool,
    pub only: bool,
    pub window_ms: u64,
}

pub open spec fn tap_policy(c: Config) -> TapPolicy {
    TapPolicy {
        lock_enabled: c.double_tap_lock_enabled,
        only: c.use_double_tap_only,
        window_ms: c.double_tap_window_ms,
    }
}

/// Whole milliseconds in a span of nanoseconds.
pub open spec fn whole_ms(ns: nat) -> nat {
    ns / 1_000_000
}

/// A press at `now` is the second tap of a double tap: double taps are enabled
/// and fewer than `window_ms` whole milliseconds passed since the last press.
pub open spec fn is_double_tap<S>(m: AppModel<S>, p: TapPolicy, now: u64) -> bool {
    &&& (p.lock_enabled || p.only)
    &&& match m.last_press {
        Some(t) => whole_ms(elapsed_spec(t, now)) < p.window_ms,
        None => false,
    }
}

/// The state after a press that starts a recording at `now`.
pub open spec fn press_start<S>(m: AppModel<S>, now: u64) -> AppModel<S> {
    AppModel { status: Status::Preparing, ..start_recording_spec(AppModel { last_press: Some(now), ..m }, now) }
}

/// What a command does: the new state, whether the reply is `ok`, and the
/// reply's message.
pub open spec fn command_outcome<S>(m: AppModel<S>, cmd: Command, p: TapPolicy, now: u64) -> (AppModel<S>, bool, Seq<char>) {
    match cmd {
        Command::Press => {
            if m.recording && m.locked {
                (AppModel { recording: false, locked: false, ..m }, true, "recording stopped (locked)"@)
            } else if m.recording {
                (m, false, "already recording"@)
            } else if p.only && !is_double_tap(m, p, now) {
                (AppModel { last_press: Some(now), ..m }, true, "waiting for second tap"@)
            } else if is_double_tap(m, p, now) || p.only {
                (AppModel { locked: true, ..press_start(m, now) }, true, "recording started (locked)"@)
            } else {
                (press_start(m, now), true, "recording started"@)
            }
        },
        Command::Release => {
            if p.only {
                (m, true, "release ignored (double-tap-only mode)"@)
            } else if !m.recording {
                (m, false, "not recording"@)
            } else if m.locked {
                (m, true, "release ignored (locked mode)"@)
            } else {
                (AppModel { recording: false, ..m }, true, "recording stopped"@)
            }
        },
        Command::Cancel => (
            AppModel { recording: false, locked: false, audio: Seq::empty(), meter: silent_meter(), status: Status::Hidden, ..m },
            true,
            "cancelled"@,
        ),
        Command::Status => (m, true, "status"@),
        Command::Ping => (m, true, "pong"@),
    }
}

/// The reply to a command: its outcome, with the snapshot of the new state.
pub open spec fn command_reply<S>(m: AppModel<S>, cmd: Command, p: TapPolicy, now: u64) -> ResponseView {
    let out = command_outcome(m, cmd, p, now);
    ResponseView { ok: out.1, message: out.2, state: Some(snapshot(out.0)) }
}

fn double_tap_now<S: Copy>(state: &AppState<S>, config: &Config, now: u64) -> (b: bool)
    ensures
        b == is_double_tap(state@, tap_policy(*config), now),
{
    if config.double_tap_lock_enabled || config.use_double_tap_only {
        match state.last_press_elapsed(now) {
            Some(d) => d / 1_000_000 < config.double_tap_window_ms,
            None => false,
        }
    } else {
        false
    }
}

/// Applies a command from a client at clock reading `now` and builds the reply,
/// which always carries the resulting state.
pub fn process_command<S: Copy>(cmd: Command, state: &mut AppState<S>, config: &Config, now: u64) -> (r: Response)
    ensures
        final(state)@ == command_outcome(old(state)@, cmd, tap_policy(*config), now).0,
        r@ == command_reply(old(state)@, cmd, tap_policy(*config), now),
{
    match cmd {
        Command::Press => {
            // If already recording in locked mode, tap again to stop.
            if state.is_recording() && state.is_locked() {
                state.recording = false;
                state.set_locked(false);
                return Response::ok("recording stopped (locked)").with_state(state.current());
            }
            if state.is_recording() {
                return Response::err("already recording").with_state(state.current());
            }
            let is_double_tap = double_tap_now(state, config, now);
            // In double-tap-only mode a lone press never starts recording; it
            // only notes the time so a second press within the window locks.
            if config.use_double_tap_only && !is_double_tap {
                state.record_press(now);
                return Response::ok("waiting for second tap").with_state(state.current());
            }
            state.record_press(now);
            state.start_recording(now);
            // The poll loop promotes Preparing to Recording after the minimum
            // hold time, so quick taps do not flash the overlay.
            state.set_status(Status::Preparing);
            if is_double_tap || config.use_double_tap_only {
                state.set_locked(true);
                Response::ok("recording started (locked)").with_state(state.current())
            } else {
                Response::ok("recording started").with_state(state.current())
            }
        },
        Command::Release => {
            // In double-tap-only mode releases are ignored altogether.
            if config.use_double_tap_only {
                return Response::ok("release ignored (double-tap-only mode)").with_state(state.current());
            }
            if !state.is_recording() {
                return Response::err("not recording").with_state(state.current());
            }
            if state.is_locked() {
                return Response::ok("release ignored (locked mode)").with_state(state.current());
            }
            // Only the flag drops; the poll loop handles the rest.
            state.recording = false;
            Response::ok("recording stopped").with_state(state.current())
        },
        Command::Cancel => {
            state.recording = false;
            state.set_locked(false);
            state.clear_audio();
            state.reset_meter();
            state.set_status(Status::Hidden);
            Response::ok("cancelled").with_state(state.current())
        },
        Command::Status => Response::ok("status").with_state(state.current()),
        Command::Ping => Response::ok("pong").with_state(state.current()),
    }
}


/// The request carried by one line from a client: the line without
/// surrounding white space, or nothing for a blank line.
pub fn request_text(line: &str) -> (r: Option<String>)
    ensures
        match r {
            Some(t) => t@ == trim_spec(line@) && t@.len() > 0,
            None => trim_spec(line@).len() == 0,
        },
{
    let t = trim(line);
    if t.unicode_len() == 0 {
        None
    } else {
        Some(t)
    }
}

/// The message of the reply to a line that is not a command.
pub open spec fn invalid_command_message(complaint: Seq<char>) -> Seq<char> {
    "invalid command: "@ + complaint
}

/// Replies to one request, given what its text parsed to: a command is
/// applied as by [`process_command`]; a line that is not a command (with the
/// parser's complaint) is refused and changes nothing.
pub fn reply_to_request<S: Copy>(parsed: Result<Command, String>, state: &mut AppState<S>, config: &Config, now: u64) -> (r: Response)
    ensures
        match parsed {
            Ok(cmd) => {
                &&& final(state)@ == command_outcome(old(state)@, cmd, tap_policy(*config), now).0
                &&& r@ == command_reply(old(state)@, cmd, tap_policy(*config), now)
            },
            Err(e) => {
                &&& final(state)@ == old(state)@
                &&& r@ == (ResponseView { ok: false, message: invalid_command_message(e@), state: Some(snapshot(old(state)@)) })
            },
        },
{
    match parsed {
        Ok(cmd) => process_command(cmd, state, config, now),
        Err(e) => {
            let mut msg = String::from_str("invalid command: ");
            msg.append(e.as_str());
            Response { ok: false, message: msg, state: None }.with_state(state.current())
        },
    }
}

/// In double-tap-only mode a lone press (one that is not the second tap of a
/// double tap) never starts a recording; it only notes the time of the press.
pub proof fn lemma_lone_tap_never_records<S>(m: AppModel<S>, p: TapPolicy, now: u64)
    requires
        p.only,
        !m.recording,
        !is_double_tap(m, p, now),
    ensures
        ({
            let out = command_outcome(m, Command::Press, p, now);
            &&& out.1
            &&& !out.0.recording
            &&& out.0.locked == m.locked
            &&& out.0.last_press == Some(now)
            &&& out.0 == (AppModel { last_press: Some(now), ..m })
        }),
{
}

/// In double-tap-only mode, a press that follows a lone tap by fewer than
/// `window_ms` whole milliseconds starts a locked recording.
pub proof fn lemma_double_tap_starts_locked_recording<S>(m: AppModel<S>, p: TapPolicy, t1: u64, t2: u64)
    requires
        p.only,
        !m.recording,
        !is_double_tap(m, p, t1),
        whole_ms(elapsed_spec(t1, t2)) < p.window_ms,
    ensures
        ({
            let first = command_outcome(m, Command::Press, p, t1);
            let second = command_outcome(first.0, Command::Press, p, t2);
            &&& !first.0.recording
            &&& second.1
            &&& second.0.recording
            &&& second.0.locked
            &&& second.0.status == Status::Preparing
            &&& second.0.recording_start == Some(t2)
        }),
{
}

/// In double-tap-only mode, a press at least `window_ms` whole milliseconds
/// after the previous one is treated as a fresh first tap.
pub proof fn lemma_late_second_tap_is_fresh_first_tap<S>(m: AppModel<S>, p: TapPolicy, t1: u64, now: u64)
    requires
        p.only,
        !m.recording,
        m.last_press == Some(t1),
        whole_ms(elapsed_spec(t1, now)) >= p.window_ms,
    ensures
        ({
            let out = command_outcome(m, Command::Press, p, now);
            &&& out.1
            &&& !out.0.recording
            &&& out.0 == (AppModel { last_press: Some(now), ..m })
        }),
{
}

/// A press during a locked recording stops it and leaves locked mode.
pub proof fn lemma_press_stops_locked_recording<S>(m: AppModel<S>, p: TapPolicy, now: u64)
    requires
        m.recording,
        m.locked,
    ensures
        ({
            let out = command_outcome(m, Command::Press, p, now);
            &&& out.1
            &&& !out.0.recording
            &&& !out.0.locked
            &&& out.0 == (AppModel { recording: false, locked: false, ..m })
        }),
{
}

/// In double-tap-only mode a release changes nothing.
pub proof fn lemma_release_ignored_in_double_tap_only_mode<S>(m: AppModel<S>, p: TapPolicy, now: u64)
    requires
        p.only,
    ensures
        command_outcome(m, Command::Release, p, now).0 == m,
        command_outcome(m, Command::Release, p, now).1,
{
}

/// Cancel always succeeds and clears the recording: the flag drops, locked
/// mode ends, the audio is discarded, the meter is silenced and the overlay
/// hides.
pub proof fn lemma_cancel_clears<S>(m: AppModel<S>, p: TapPolicy, now: u64)
    ensures
        ({
            let out = command_outcome(m, Command::Cancel, p, now);
            &&& out.1
            &&& !out.0.recording
            &&& !out.0.locked
            &&& out.0.audio.len() == 0
            &&& out.0.meter == silent_meter()
            &&& out.0.status == Status::Hidden
        }),
{
}

/// Status and ping queries succeed and change nothing.
pub proof fn lemma_queries_change_nothing<S>(m: AppModel<S>, p: TapPolicy, now: u64)
    ensures
        command_outcome(m, Command::Status, p, now).0 == m,
        command_outcome(m, Command::Status, p, now).1,
        command_outcome(m, Command::Ping, p, now).0 == m,
        command_outcome(m, Command::Ping, p, now).2 == "pong"@,
        command_outcome(m, Command::Ping, p, now).1,
{
}

/// In press-and-hold mode the first press starts an unlocked recording in the
/// preparing phase.
pub proof fn lemma_press_and_hold_first_press_records<S>(m: AppModel<S>, p: TapPolicy, now: u64)
    requires
        !p.only,
        !m.recording,
        !m.locked,
        !is_double_tap(m, p, now),
    ensures
        ({
            let out = command_outcome(m, Command::Press, p, now);
            &&& out.1
            &&& out.0.recording
            &&& !out.0.locked
            &&& out.0.status == Status::Preparing
            &&& out.0.recording_start == Some(now)
        }),
{
}

/// In press-and-hold mode releasing an unlocked recording stops it.
pub proof fn lemma_press_and_hold_release_stops<S>(m: AppModel<S>, p: TapPolicy, now: u64)
    requires
        !p.only,
        m.recording,
        !m.locked,
    ensures
        command_outcome(m, Command::Release, p, now).1,
        command_outcome(m, Command::Release, p, now).0 == (AppModel { recording: false, ..m }),
{
}

/// In press-and-hold mode with double-tap locking enabled: press, release,
/// and a second press within `window_ms` whole milliseconds of the first
/// yields a locked recording.
pub proof fn lemma_press_release_press_locks<S>(m: AppModel<S>, p: TapPolicy, t1: u64, t2: u64, t3: u64)
    requires
        !p.only,
        p.lock_enabled,
        !m.recording,
        !m.locked,
        !is_double_tap(m, p, t1),
        whole_ms(elapsed_spec(t1, t3)) < p.window_ms,
    ensures
        ({
            let a = command_outcome(m, Command::Press, p, t1);
            let b = command_outcome(a.0, Command::Release, p, t2);
            let c = command_outcome(b.0, Command::Press, p, t3);
            &&& a.0.recording
            &&& !b.0.recording
            &&& c.1
            &&& c.0.recording
            &&& c.0.locked
        }),
{
}

/// Only a press starts a recording.
pub proof fn lemma_only_press_starts_recording<S>(m: AppModel<S>, cmd: Command, p: TapPolicy, now: u64)
    requires
        !m.recording,
        command_outcome(m, cmd, p, now).0.recording,
    ensures
        cmd == Command::Press,
{
}

/// A refused command leaves the state untouched.
pub proof fn lemma_refusal_changes_nothing<S>(m: AppModel<S>, cmd: Command, p: TapPolicy, now: u64)
    requires
        !command_outcome(m, cmd, p, now).1,
    ensures
        command_outcome(m, cmd, p, now).0 == m,
{
}

/// Outside double-tap-only mode, a release during a locked recording is
/// accepted and changes nothing: the recording goes on, still locked.
pub proof fn lemma_release_keeps_locked_recording<S>(m: AppModel<S>, p: TapPolicy, now: u64)
    requires
        !p.only,
        m.recording,
        m.locked,
    ensures
        ({
            let out = command_outcome(m, Command::Release, p, now);
            &&& out.1
            &&& out.0 == m
            &&& out.0.recording
            &&& out.0.locked
            &&& out.2 == "release ignored (locked mode)"@
        }),
{
}

/// No release ever ends locked mode, and none stops a locked recording.
pub proof fn lemma_release_never_unlocks<S>(m: AppModel<S>, p: TapPolicy, now: u64)
    ensures
        command_outcome(m, Command::Release, p, now).0.locked == m.locked,
        m.recording && m.locked ==> command_outcome(m, Command::Release, p, now).0.recording,
{
}

/// With double-tap locking and double-tap-only mode both off, no press is a
/// double tap, whatever the time since the last press: no command turns
/// locked mode on, and a press that starts a recording starts it unlocked.
pub proof fn lemma_no_lock_without_double_tap<S>(m: AppModel<S>, cmd: Command, p: TapPolicy, now: u64)
    requires
        !p.lock_enabled,
        !p.only,
        !m.locked,
    ensures
        !is_double_tap(m, p, now),
        !command_outcome(m, cmd, p, now).0.locked,
        cmd == Command::Press && !m.recording ==> {
            let out = command_outcome(m, cmd, p, now);
            &&& out.1
            &&& out.0.recording
            &&& !out.0.locked
            &&& out.2 == "recording started"@
        },
{
}

/// A command is refused exactly when it cannot apply: a press during an
/// unlocked recording, or (outside double-tap-only mode) a release with no
/// recording. Every reply carries the state as it is after the command.
pub proof fn lemma_refused_exactly_when_inapplicable<S>(m: AppModel<S>, cmd: Command, p: TapPolicy, now: u64)
    ensures
        !command_outcome(m, cmd, p, now).1 == (
            (cmd == Command::Press && m.recording && !m.locked)
            || (cmd == Command::Release && !p.only && !m.recording)
        ),
        ({
            let after = command_outcome(m, cmd, p, now).0;
            let reply = command_reply(m, cmd, p, now);
            &&& reply.ok == command_outcome(m, cmd, p, now).1
            &&& reply.state matches Some(d) && d.status == after.status && d.meter == after.meter && d.message == after.error
        }),
{
}

} // verus!
