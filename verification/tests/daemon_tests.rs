use incant::config::Config;
use incant::daemon::{needs_resample, resample_finished, tick, transcription_finished, typing_finished, LoopState, TickAction};
use incant::ipc::process_command;
use incant::protocol::{Command, Status};
use incant::sound::Effect;
use incant::state::{AppState, PRE_ROLL_SAMPLES};

const MS: u64 = 1_000_000;

fn hold_config() -> Config {
    Config { use_double_tap_only: false, ..Config::default() }
}

#[test]
fn quick_tap_is_discarded() {
    let config = hold_config();
    let mut st: AppState<i32> = AppState::default();
    let mut lp = LoopState::new();
    process_command(Command::Press, &mut st, &config, 1000 * MS);
    st.append_audio(&[1, 2, 3]);
    assert!(matches!(tick(&mut st, &mut lp, &config, 1010 * MS, false), TickAction::Idle));
    process_command(Command::Release, &mut st, &config, 1100 * MS);
    let a = tick(&mut st, &mut lp, &config, 1120 * MS, false);
    assert!(matches!(a, TickAction::QuickTapDiscarded));
    assert_eq!(a.sound(), None);
    assert_eq!(st.status, Status::Hidden);
    assert!(st.audio_buffer.is_empty());
}

#[test]
fn promotion_needs_hold_and_speech() {
    let config = hold_config();
    let mut st: AppState<i32> = AppState::default();
    let mut lp = LoopState::new();
    process_command(Command::Press, &mut st, &config, 1000 * MS);
    assert_eq!(st.status, Status::Preparing);
    // Before the minimum hold time, even with speech: no promotion.
    assert!(matches!(tick(&mut st, &mut lp, &config, 1149 * MS, true), TickAction::Idle));
    assert_eq!(st.status, Status::Preparing);
    // Past the minimum but silent and not yet past the longest preparing time.
    assert!(matches!(tick(&mut st, &mut lp, &config, 1200 * MS, false), TickAction::Idle));
    // Speech heard: promoted, with the start sound.
    let a = tick(&mut st, &mut lp, &config, 1250 * MS, true);
    assert!(matches!(a, TickAction::Promoted));
    assert_eq!(a.sound(), Some(Effect::Start));
    assert_eq!(st.status, Status::Recording);
}

#[test]
fn silent_press_is_promoted_after_longest_preparing_time() {
    let config = hold_config();
    let mut st: AppState<i32> = AppState::default();
    let mut lp = LoopState::new();
    process_command(Command::Press, &mut st, &config, 0);
    assert!(matches!(tick(&mut st, &mut lp, &config, 499 * MS, false), TickAction::Idle));
    assert!(matches!(tick(&mut st, &mut lp, &config, 500 * MS, false), TickAction::Promoted));
}

#[test]
fn released_recording_is_transcribed_and_typed() {
    let config = hold_config();
    let mut st: AppState<i32> = AppState::default();
    let mut lp = LoopState::new();
    st.append_audio(&[7, 8]); // pre-roll
    process_command(Command::Press, &mut st, &config, 1000 * MS);
    tick(&mut st, &mut lp, &config, 1010 * MS, false);
    st.append_audio(&[9, 10, 11]);
    process_command(Command::Release, &mut st, &config, 2000 * MS);
    let a = tick(&mut st, &mut lp, &config, 2010 * MS, false);
    assert_eq!(a.sound(), Some(Effect::Stop));
    match a {
        TickAction::Transcribe(audio) => assert_eq!(audio, vec![7, 8, 9, 10, 11]),
        _ => panic!("expected a transcription job"),
    }
    assert_eq!(st.status, Status::Transcribing);
    assert!(st.audio_buffer.is_empty());
    assert!(!lp.was_recording);

    let typed = transcription_finished(&mut st, &mut lp, Ok("  hello there \n".to_string()), 2500 * MS);
    assert_eq!(typed.as_deref(), Some("hello there"));
    assert_eq!(st.last_result.as_deref(), Some("hello there"));
    assert_eq!(typing_finished(&mut st, &mut lp, Ok(()), 2600 * MS), Some(Effect::Paste));
    assert_eq!(st.status, Status::Hidden);
}

#[test]
fn empty_recording_captures_nothing() {
    let config = hold_config();
    let mut st: AppState<i32> = AppState::default();
    let mut lp = LoopState::new();
    process_command(Command::Press, &mut st, &config, 0);
    tick(&mut st, &mut lp, &config, MS, false);
    process_command(Command::Release, &mut st, &config, 400 * MS);
    let a = tick(&mut st, &mut lp, &config, 401 * MS, false);
    assert!(matches!(a, TickAction::NothingCaptured));
    assert_eq!(a.sound(), Some(Effect::Stop));
    assert_eq!(st.status, Status::Hidden);
}

#[test]
fn errors_show_then_clear() {
    let config = hold_config();
    let mut st: AppState<i32> = AppState::default();
    let mut lp = LoopState::new();
    let typed = transcription_finished(&mut st, &mut lp, Err("model crashed".to_string()), 10_000 * MS);
    assert_eq!(typed, None);
    assert_eq!(st.status, Status::Error);
    assert_eq!(st.error_message.as_deref(), Some("Transcription failed: model crashed"));
    assert_eq!(st.current().message.as_deref(), Some("Transcription failed: model crashed"));
    tick(&mut st, &mut lp, &config, 13_000 * MS, false);
    assert_eq!(st.status, Status::Error);
    tick(&mut st, &mut lp, &config, 13_001 * MS, false);
    assert_eq!(st.status, Status::Hidden);
    assert_eq!(st.error_message, None);
    assert_eq!(lp.error_clear_time, None);

    assert_eq!(resample_finished(&mut st, &mut lp, Err("bad ratio".to_string()), 20_000 * MS), None);
    assert_eq!(st.error_message.as_deref(), Some("Resampling failed: bad ratio"));
    assert_eq!(typing_finished(&mut st, &mut lp, Err("all output methods failed".to_string()), 21_000 * MS), None);
    assert_eq!(st.error_message.as_deref(), Some("Paste failed: all output methods failed"));
    assert_eq!(lp.error_clear_time, Some(21_000 * MS));
}

#[test]
fn blank_transcription_hides_overlay() {
    let mut st: AppState<i32> = AppState::default();
    let mut lp = LoopState::new();
    st.set_status(Status::Transcribing);
    assert_eq!(transcription_finished(&mut st, &mut lp, Ok(" \n".to_string()), 0), None);
    assert_eq!(st.status, Status::Hidden);
    assert_eq!(st.last_result, None);
}

#[test]
fn resampling_only_when_rates_differ() {
    assert!(needs_resample(48000, 16000));
    assert!(!needs_resample(16000, 16000));
    let mut st: AppState<i32> = AppState::default();
    let mut lp = LoopState::new();
    st.set_status(Status::Transcribing);
    assert_eq!(resample_finished(&mut st, &mut lp, Ok(vec![4, 5, 6]), 0), Some(vec![4, 5, 6]));
    assert_eq!(st.status, Status::Transcribing);
    assert_eq!(lp.error_clear_time, None);
}

#[test]
fn appends_after_clear_come_back_in_order() {
    let mut st: AppState<i32> = AppState::default();
    st.set_status(Status::Recording);
    st.append_audio(&[9, 9]);
    st.clear_audio();
    st.append_audio(&[1, 2]);
    st.append_audio(&[3]);
    assert_eq!(st.take_audio(), vec![1, 2, 3]);
    assert_eq!(st.take_audio(), Vec::<i32>::new());
}

#[test]
fn idle_buffer_keeps_only_pre_roll() {
    let mut st: AppState<u32> = AppState::default();
    let chunk: Vec<u32> = (0..5000).collect();
    st.append_audio(&chunk);
    assert_eq!(st.audio_buffer.len(), 5000);
    let chunk2: Vec<u32> = (5000..10000).collect();
    st.append_audio(&chunk2);
    assert_eq!(st.audio_buffer.len(), PRE_ROLL_SAMPLES);
    assert_eq!(st.audio_buffer[0], 2000);
    assert_eq!(*st.audio_buffer.last().unwrap(), 9999);

    // While recording, nothing is dropped.
    st.set_status(Status::Recording);
    st.append_audio(&chunk);
    assert_eq!(st.audio_buffer.len(), PRE_ROLL_SAMPLES + 5000);
    let taken = st.take_audio();
    assert_eq!(taken.len(), PRE_ROLL_SAMPLES + 5000);
    assert!(st.audio_buffer.is_empty());
}

#[test]
fn state_accessors() {
    let mut st: AppState<f32> = AppState::new();
    assert_eq!(st.last_press_elapsed(5), None);
    st.record_press(10 * MS);
    assert_eq!(st.last_press_elapsed(15 * MS), Some(5 * MS));
    assert_eq!(st.last_press_elapsed(0), Some(0));
    st.start_recording(20 * MS);
    assert_eq!(st.recording_duration(70 * MS), Some(50 * MS));
    st.set_locked(true);
    assert_eq!(st.stop_recording(90 * MS), Some(70 * MS));
    assert!(!st.is_recording() && !st.is_locked());
    assert_eq!(st.recording_duration(100 * MS), None);
    st.set_meter(0.5f32.to_bits(), 0.8f32.to_bits());
    assert_eq!(f32::from_bits(st.current().meter.peak_power_bits), 0.8);
    st.reset_meter();
    assert_eq!(st.meter.average_power_bits, 0);
    st.set_result("done".to_string());
    assert_eq!(st.take_result().as_deref(), Some("done"));
    assert_eq!(st.take_result(), None);
    st.set_error(Some("oops".to_string()));
    assert_eq!(st.current().message.as_deref(), Some("oops"));
}
