//! The press/release/cancel handlers:
//!
//! * In double-tap-only mode, a lone press must never start recording.
//! * A second press within `double_tap_window_ms` starts a locked recording.
//! * A second press outside the window is treated as a fresh first tap.
//! * In locked recording, a further press stops the recording.
//! * `Release` is a no-op in double-tap-only mode.
//! * `Cancel` always clears state.

use incant::config::Config;
use incant::ipc::{process_command, reply_to_request, request_text};
use incant::protocol::{Command, Status};
use incant::state::AppState;

const MS: u64 = 1_000_000;
const T0: u64 = 5_000 * MS;

fn double_tap_only_config() -> Config {
    Config {
        use_double_tap_only: true,
        double_tap_lock_enabled: true,
        double_tap_window_ms: 300,
        ..Config::default()
    }
}

fn press_and_hold_config() -> Config {
    Config {
        use_double_tap_only: false,
        double_tap_lock_enabled: true,
        double_tap_window_ms: 300,
        ..Config::default()
    }
}

#[test]
fn lone_press_in_double_tap_only_does_not_record() {
    let mut state: AppState<f32> = AppState::default();
    let config = double_tap_only_config();

    let resp = process_command(Command::Press, &mut state, &config, T0);
    assert!(resp.ok, "first tap should be accepted: {:?}", resp.message);
    assert!(!state.is_recording(), "lone tap must not start recording");
    assert!(!state.is_locked());
}

#[test]
fn double_tap_within_window_starts_locked_recording() {
    let mut state: AppState<f32> = AppState::default();
    let config = double_tap_only_config();

    let _ = process_command(Command::Press, &mut state, &config, T0);
    assert!(!state.is_recording());

    // Second tap immediately afterwards is within the 300 ms window.
    let resp = process_command(Command::Press, &mut state, &config, T0 + MS);
    assert!(resp.ok);
    assert!(state.is_recording(), "second tap should start recording");
    assert!(state.is_locked(), "double-tap-only always enters locked mode");
}

#[test]
fn third_tap_in_locked_mode_stops_recording() {
    let mut state: AppState<f32> = AppState::default();
    let config = double_tap_only_config();

    // Promote to locked recording.
    let _ = process_command(Command::Press, &mut state, &config, T0);
    let _ = process_command(Command::Press, &mut state, &config, T0 + MS);
    assert!(state.is_recording());
    assert!(state.is_locked());

    // Third tap = stop.
    let resp = process_command(Command::Press, &mut state, &config, T0 + 2 * MS);
    assert!(resp.ok);
    assert!(!state.is_recording(), "third tap should stop recording");
    assert!(!state.is_locked());
}

#[test]
fn second_tap_after_window_is_treated_as_fresh_first_tap() {
    let mut state: AppState<f32> = AppState::default();
    let mut config = double_tap_only_config();
    // Make the double-tap window so short that any real-world delay misses it.
    config.double_tap_window_ms = 1;

    let _ = process_command(Command::Press, &mut state, &config, T0);
    // Press again 20 ms later, past the window.
    let resp = process_command(Command::Press, &mut state, &config, T0 + 20 * MS);
    assert!(resp.ok);
    assert!(
        !state.is_recording(),
        "second tap outside double-tap window must not start recording in double-tap-only mode"
    );
}

#[test]
fn release_is_noop_in_double_tap_only_mode() {
    let mut state: AppState<f32> = AppState::default();
    let config = double_tap_only_config();

    // Get into locked recording.
    let _ = process_command(Command::Press, &mut state, &config, T0);
    let _ = process_command(Command::Press, &mut state, &config, T0 + MS);
    assert!(state.is_recording());

    // Release must NOT stop the recording in double-tap-only mode.
    let resp = process_command(Command::Release, &mut state, &config, T0 + 2 * MS);
    assert!(resp.ok);
    assert!(state.is_recording(), "release must not stop a locked recording");
}

#[test]
fn press_and_hold_starts_recording_on_first_press() {
    let mut state: AppState<f32> = AppState::default();
    let config = press_and_hold_config();

    let resp = process_command(Command::Press, &mut state, &config, T0);
    assert!(resp.ok);
    assert!(state.is_recording(), "press-and-hold should record on first press");
    assert!(!state.is_locked(), "first press should not be locked");
}

#[test]
fn press_and_hold_release_stops_recording() {
    let mut state: AppState<f32> = AppState::default();
    let config = press_and_hold_config();

    let _ = process_command(Command::Press, &mut state, &config, T0);
    assert!(state.is_recording());

    let resp = process_command(Command::Release, &mut state, &config, T0 + MS);
    assert!(resp.ok);
    assert!(!state.is_recording(), "release should stop recording in press-and-hold mode");
}

#[test]
fn press_and_hold_double_tap_locks() {
    let mut state: AppState<f32> = AppState::default();
    let config = press_and_hold_config();

    // Press → release (quick): the press itself starts recording, release stops it.
    let _ = process_command(Command::Press, &mut state, &config, T0);
    let _ = process_command(Command::Release, &mut state, &config, T0 + MS);
    assert!(!state.is_recording());

    // Second press within the window should now lock.
    let resp = process_command(Command::Press, &mut state, &config, T0 + 2 * MS);
    assert!(resp.ok);
    assert!(state.is_recording());
    assert!(state.is_locked(), "double-tap should promote to locked recording");
}

#[test]
fn cancel_clears_recording_state() {
    let mut state: AppState<f32> = AppState::default();
    let config = double_tap_only_config();

    let _ = process_command(Command::Press, &mut state, &config, T0);
    let _ = process_command(Command::Press, &mut state, &config, T0 + MS);
    assert!(state.is_recording());

    let resp = process_command(Command::Cancel, &mut state, &config, T0 + 2 * MS);
    assert!(resp.ok);
    assert!(!state.is_recording(), "cancel should stop recording");
    assert!(!state.is_locked(), "cancel should leave locked mode");
}

#[test]
fn ping_returns_ok() {
    let mut state: AppState<f32> = AppState::default();
    let config = Config::default();
    let resp = process_command(Command::Ping, &mut state, &config, T0);
    assert!(resp.ok);
    assert_eq!(resp.message, "pong");
}

#[test]
fn status_does_not_change_state() {
    let mut state: AppState<f32> = AppState::default();
    let config = Config::default();
    state.set_status(Status::Hidden);
    let resp = process_command(Command::Status, &mut state, &config, T0);
    assert!(resp.ok);
    assert!(!state.is_recording());
}

#[test]
fn replies_carry_messages_and_state() {
    let mut state: AppState<f32> = AppState::default();
    let config = double_tap_only_config();

    let resp = process_command(Command::Press, &mut state, &config, T0);
    assert_eq!(resp.message, "waiting for second tap");
    let resp = process_command(Command::Press, &mut state, &config, T0 + 299 * MS);
    assert_eq!(resp.message, "recording started (locked)");
    let snap = resp.state.expect("state attached");
    assert_eq!(snap.status, Status::Preparing);
    let resp = process_command(Command::Release, &mut state, &config, T0 + 400 * MS);
    assert_eq!(resp.message, "release ignored (double-tap-only mode)");
    let resp = process_command(Command::Press, &mut state, &config, T0 + 500 * MS);
    assert_eq!(resp.message, "recording stopped (locked)");
    let resp = process_command(Command::Cancel, &mut state, &config, T0 + 600 * MS);
    assert_eq!(resp.message, "cancelled");
    assert_eq!(resp.state.unwrap().status, Status::Hidden);
}

#[test]
fn window_boundary_is_exclusive() {
    let mut state: AppState<f32> = AppState::default();
    let config = double_tap_only_config();
    let _ = process_command(Command::Press, &mut state, &config, T0);
    // Exactly 300 ms later is outside a 300 ms window.
    let resp = process_command(Command::Press, &mut state, &config, T0 + 300 * MS);
    assert_eq!(resp.message, "waiting for second tap");
    assert!(!state.is_recording());
}

#[test]
fn press_and_hold_refusals() {
    let mut state: AppState<f32> = AppState::default();
    let config = press_and_hold_config();
    let resp = process_command(Command::Release, &mut state, &config, T0);
    assert!(!resp.ok);
    assert_eq!(resp.message, "not recording");
    let _ = process_command(Command::Press, &mut state, &config, T0);
    let resp = process_command(Command::Press, &mut state, &config, T0 + 400 * MS);
    assert!(!resp.ok);
    assert_eq!(resp.message, "already recording");
    assert!(state.is_recording());
}

#[test]
fn cancel_clears_locked_mode() {
    // After cancelling a locked recording, the next ordinary press in
    // press-and-hold mode records unlocked and its release stops it.
    let mut state: AppState<f32> = AppState::default();
    let config = press_and_hold_config();
    let _ = process_command(Command::Press, &mut state, &config, T0);
    let _ = process_command(Command::Release, &mut state, &config, T0 + MS);
    let _ = process_command(Command::Press, &mut state, &config, T0 + 2 * MS);
    assert!(state.is_locked());
    let resp = process_command(Command::Cancel, &mut state, &config, T0 + 3 * MS);
    assert!(resp.ok);
    assert!(!state.is_recording());
    assert!(!state.is_locked());
    let resp = process_command(Command::Press, &mut state, &config, T0 + 2000 * MS);
    assert_eq!(resp.message, "recording started");
    assert!(!state.is_locked());
    let resp = process_command(Command::Release, &mut state, &config, T0 + 2500 * MS);
    assert_eq!(resp.message, "recording stopped");
    assert!(!state.is_recording());
}

#[test]
fn request_lines() {
    assert_eq!(request_text("  {\"cmd\":\"ping\"}\r\n"), Some("{\"cmd\":\"ping\"}".to_string()));
    assert_eq!(request_text(" \t \n"), None);

    let mut state: AppState<f32> = AppState::default();
    let config = Config::default();
    let resp = reply_to_request(Err("expected value at line 1 column 1".to_string()), &mut state, &config, T0);
    assert!(!resp.ok);
    assert_eq!(resp.message, "invalid command: expected value at line 1 column 1");
    assert!(resp.state.is_some());
    let resp = reply_to_request(Ok(Command::Ping), &mut state, &config, T0);
    assert_eq!(resp.message, "pong");
}
