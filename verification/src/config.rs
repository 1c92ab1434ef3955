use vstd::prelude::*;
use crate::text::{join_path, join_path_spec};

verus! {

/// Daemon settings. Paths are carried as strings; single-precision settings
/// are carried as their IEEE-754 bit patterns.
pub struct Config {
    pub model_path: String,
    pub sample_rate: u32,
    pub socket_path: String,
    pub cache_dir: String,
    pub buffer_size: usize,
    pub output_methods: Vec<String>,
    pub show_overlay: bool,
    pub num_threads: i32,
    pub debug: bool,
    /// Minimum recording duration in milliseconds before transcription proceeds.
    /// Recordings shorter than this are silently discarded.
    pub minimum_key_time_ms: u64,
    /// Enable double-tap to lock recording mode.
    pub double_tap_lock_enabled: bool,
    /// Double-tap window in milliseconds.
    pub double_tap_window_ms: u64,
    /// Use double-tap only (no press-and-hold).
    pub use_double_tap_only: bool,
    /// Sound effect volume (0.0 - 1.0), as a bit pattern.
    pub sound_volume_bits: u32,
    /// Longest time, in milliseconds, a press stays in the preparing phase
    /// when no audio energy is detected.
    pub max_preparing_duration_ms: u64,
    /// Peak power that counts as speech while preparing, as a bit pattern.
    pub promotion_peak_threshold_bits: u32,
}

/// Default fallback for the cache directory when the platform has none.
pub open spec fn fallback_cache_dir() -> Seq<char> {
    "~/.cache"@
}

/// Default fallback for the runtime directory when the platform has neither
/// a runtime nor a cache directory.
pub open spec fn fallback_runtime_dir() -> Seq<char> {
    "/tmp"@
}

pub open spec fn opt_or(o: Option<Seq<char>>, d: Seq<char>) -> Seq<char> {
    match o {
        Some(s) => s,
        None => d,
    }
}

/// Where the default model lives, given the platform cache directory.
pub open spec fn default_model_path_spec(cache: Option<Seq<char>>) -> Seq<char> {
    join_path_spec(opt_or(cache, fallback_cache_dir()), "incant/models/moonshine-tiny-en-int8"@)
}

/// Where the daemon socket lives, given the platform runtime and cache directories.
pub open spec fn default_socket_path_spec(cache: Option<Seq<char>>, runtime: Option<Seq<char>>) -> Seq<char> {
    let base = match runtime {
        Some(r) => r,
        None => opt_or(cache, fallback_runtime_dir()),
    };
    join_path_spec(base, "incant/daemon.sock"@)
}

/// The daemon's cache directory, given the platform cache directory.
pub open spec fn default_cache_dir_spec(cache: Option<Seq<char>>) -> Seq<char> {
    join_path_spec(opt_or(cache, fallback_cache_dir()), "incant"@)
}

pub const DEFAULT_SAMPLE_RATE: u32 = 16000;
pub const DEFAULT_BUFFER_SIZE: usize = 4096;
pub const DEFAULT_MINIMUM_KEY_TIME_MS: u64 = 150;
pub const DEFAULT_DOUBLE_TAP_WINDOW_MS: u64 = 300;
/// `0.3`
pub const DEFAULT_SOUND_VOLUME_BITS: u32 = 0x3e99999a;
/// Chosen default for the longest preparing time: the daemon's poll loop
/// reads this setting, and half a second bounds how long a silent press
/// waits before it is shown as a recording.
pub const DEFAULT_MAX_PREPARING_DURATION_MS: u64 = 500;
/// `0.02`: chosen default for the peak power that counts as speech while a
/// press is preparing, low enough for quiet speech and above idle noise.
pub const DEFAULT_PROMOTION_PEAK_THRESHOLD_BITS: u32 = 0x3ca3d70a;

/// The default output methods, in the order they are tried.
pub open spec fn default_output_methods_spec() -> Seq<Seq<char>> {
    seq!["wtype"@, "dotool"@, "wl-copy"@]
}

/// Every setting except the three paths has its default value.
pub open spec fn has_default_settings(c: Config) -> bool {
    &&& c.sample_rate == DEFAULT_SAMPLE_RATE
    &&& c.buffer_size == DEFAULT_BUFFER_SIZE
    &&& c.output_methods@.map_values(|s: String| s@) == default_output_methods_spec()
    &&& c.show_overlay
    &&& c.num_threads == 0
    &&& !c.debug
    &&& c.minimum_key_time_ms == DEFAULT_MINIMUM_KEY_TIME_MS
    &&& c.double_tap_lock_enabled
    &&& c.double_tap_window_ms == DEFAULT_DOUBLE_TAP_WINDOW_MS
    &&& c.use_double_tap_only
    &&& c.sound_volume_bits == DEFAULT_SOUND_VOLUME_BITS
    &&& c.max_preparing_duration_ms == DEFAULT_MAX_PREPARING_DURATION_MS
    &&& c.promotion_peak_threshold_bits == DEFAULT_PROMOTION_PEAK_THRESHOLD_BITS
}

fn default_model_path(cache: Option<&str>) -> (p: String)
    ensures
        p@ == default_model_path_spec(opt_str_view(cache)),
{
    join_path(cache.unwrap_or("~/.cache"), "incant/models/moonshine-tiny-en-int8")
}

fn default_socket_path(cache: Option<&str>, runtime: Option<&str>) -> (p: String)
    ensures
        p@ == default_socket_path_spec(opt_str_view(cache), opt_str_view(runtime)),
{
    let base = match runtime {
        Some(r) => r,
        None => cache.unwrap_or("/tmp"),
    };
    join_path(base, "incant/daemon.sock")
}

fn default_cache_dir(cache: Option<&str>) -> (p: String)
    ensures
        p@ == default_cache_dir_spec(opt_str_view(cache)),
{
    join_path(cache.unwrap_or("~/.cache"), "incant")
}

fn default_sample_rate() -> (r: u32)
    ensures
        r == DEFAULT_SAMPLE_RATE,
{
    DEFAULT_SAMPLE_RATE
}

fn default_buffer_size() -> (r: usize)
    ensures
        r == DEFAULT_BUFFER_SIZE,
{
    DEFAULT_BUFFER_SIZE
}

fn default_output_methods() -> (v: Vec<String>)
    ensures
        v@.map_values(|s: String| s@) == default_output_methods_spec(),
{
    let mut v: Vec<String> = Vec::new();
    v.push(String::from_str("wtype"));
    v.push(String::from_str("dotool"));
    v.push(String::from_str("wl-copy"));
    assert(v@.map_values(|s: String| s@) =~= default_output_methods_spec());
    v
}

fn default_true() -> (b: bool)
    ensures
        b,
{
    true
}

fn default_minimum_key_time_ms() -> (r: u64)
    ensures
        r == DEFAULT_MINIMUM_KEY_TIME_MS,
{
    DEFAULT_MINIMUM_KEY_TIME_MS
}

fn default_double_tap_window_ms() -> (r: u64)
    ensures
        r == DEFAULT_DOUBLE_TAP_WINDOW_MS,
{
    DEFAULT_DOUBLE_TAP_WINDOW_MS
}

pub open spec fn opt_str_view(o: Option<&str>) -> Option<Seq<char>> {
    match o {
        Some(s) => Some(s@),
        None => None,
    }
}

impl Config {
    /// The default settings, with paths placed under the platform's cache
    /// directory and runtime directory (either may be unknown).
    pub fn with_dirs(cache_dir: Option<&str>, runtime_dir: Option<&str>) -> (c: Config)
        ensures
            has_default_settings(c),
            c.model_path@ == default_model_path_spec(opt_str_view(cache_dir)),
            c.socket_path@ == default_socket_path_spec(opt_str_view(cache_dir), opt_str_view(runtime_dir)),
            c.cache_dir@ == default_cache_dir_spec(opt_str_view(cache_dir)),
    {
        Config {
            model_path: default_model_path(cache_dir),
            sample_rate: default_sample_rate(),
            socket_path: default_socket_path(cache_dir, runtime_dir),
            cache_dir: default_cache_dir(cache_dir),
            buffer_size: default_buffer_size(),
            output_methods: default_output_methods(),
            show_overlay: default_true(),
            num_threads: 0,
            debug: false,
            minimum_key_time_ms: default_minimum_key_time_ms(),
            double_tap_lock_enabled: default_true(),
            double_tap_window_ms: default_double_tap_window_ms(),
            use_double_tap_only: default_true(),
            sound_volume_bits: DEFAULT_SOUND_VOLUME_BITS,
            max_preparing_duration_ms: DEFAULT_MAX_PREPARING_DURATION_MS,
            promotion_peak_threshold_bits: DEFAULT_PROMOTION_PEAK_THRESHOLD_BITS,
        }
    }
}

impl Default for Config {
    /// The default settings when the platform reports neither a cache nor a
    /// runtime directory.
    fn default() -> (c: Config)
        ensures
            has_default_settings(c),
            c.model_path@ == default_model_path_spec(None),
            c.socket_path@ == default_socket_path_spec(None, None),
            c.cache_dir@ == default_cache_dir_spec(None),
    {
        Config::with_dirs(None, None)
    }
}

} // verus!
