use incant::config::Config;

#[test]
fn test_default_config() {
    let config = Config::default();
    assert_eq!(config.sample_rate, 16000);
    assert_eq!(config.buffer_size, 4096);
    assert!(config.show_overlay);
    assert_eq!(config.minimum_key_time_ms, 150);
    assert!(config.double_tap_lock_enabled);
    assert_eq!(config.double_tap_window_ms, 300);
    assert!(config.use_double_tap_only);
    assert!(!config.debug);
}

#[test]
fn default_paths_without_platform_dirs() {
    let config = Config::default();
    assert_eq!(config.model_path, "~/.cache/incant/models/moonshine-tiny-en-int8");
    assert_eq!(config.socket_path, "/tmp/incant/daemon.sock");
    assert_eq!(config.cache_dir, "~/.cache/incant");
    assert_eq!(config.output_methods, vec!["wtype", "dotool", "wl-copy"]);
    assert_eq!(f32::from_bits(config.sound_volume_bits), 0.3);
}

#[test]
fn default_paths_follow_platform_dirs() {
    let config = Config::with_dirs(Some("/home/u/.cache"), Some("/run/user/1000"));
    assert_eq!(config.model_path, "/home/u/.cache/incant/models/moonshine-tiny-en-int8");
    assert_eq!(config.socket_path, "/run/user/1000/incant/daemon.sock");
    assert_eq!(config.cache_dir, "/home/u/.cache/incant");

    // Without a runtime directory the socket goes to the cache directory.
    let config = Config::with_dirs(Some("/home/u/.cache/"), None);
    assert_eq!(config.socket_path, "/home/u/.cache/incant/daemon.sock");
    assert_eq!(config.cache_dir, "/home/u/.cache/incant");
}
