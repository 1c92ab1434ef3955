//! Dictation daemon core: the IPC command state machine, the recording
//! lifecycle driven by the daemon's poll loop, text injection planning,
//! model selection and the diagnostic report.

pub mod text;
pub mod protocol;
pub mod config;
pub mod state;
pub mod ipc;
pub mod sound;
pub mod capture;
pub mod daemon;
pub mod output;
pub mod stt;
pub mod doctor;
pub mod overlay;
