use incant::doctor::{
    check_binary, check_daemon_reachable, check_hyprland, check_microphone, check_model, check_pipewire,
    check_sherpa_libs, check_socket_path, check_wayland, format_check, model_candidates, ping_request,
    programs_to_check, summarize, Check, CheckResult, DaemonProbe, SocketProbe,
};

#[test]
fn environment_checks() {
    let c = check_wayland(Some("wayland-1"));
    assert_eq!((c.result, c.message.as_str()), (CheckResult::Pass, "wayland-1"));
    let c = check_wayland(None);
    assert_eq!(c.result, CheckResult::Fail);
    assert_eq!(c.fix.as_deref(), Some("Incant requires a Wayland session."));
    assert_eq!(check_hyprland(false).result, CheckResult::Warn);
    assert_eq!(check_pipewire(false).message, "pactl info failed \u{2014} is PipeWire running?");
}

#[test]
fn microphone_listing() {
    let out = "49\talsa_output.pci.monitor\tPipeWire\n50\talsa_input.pci\tPipeWire\n\n";
    let c = check_microphone(Some(out));
    assert_eq!(c.result, CheckResult::Pass);
    assert_eq!(c.message, "2 source(s) found");
    let c = check_microphone(Some("49\talsa_output.monitor\n"));
    assert_eq!(c.result, CheckResult::Warn);
    assert_eq!(c.message, "No input sources detected");
    assert_eq!(check_microphone(None).message, "Could not enumerate audio sources");
}

#[test]
fn program_checks() {
    let c = check_binary("wtype", false, true);
    assert_eq!(c.result, CheckResult::Fail);
    assert_eq!(c.fix.as_deref(), Some("Install wtype (see README for package name)."));
    let c = check_binary("dotool", false, false);
    assert_eq!(c.result, CheckResult::Warn);
    assert_eq!(c.fix.as_deref(), Some("Install dotool if you want this fallback."));
    assert_eq!(check_binary("wl-copy", true, false).message, "found in PATH");
    let names: Vec<&str> = programs_to_check().iter().map(|p| p.0).collect();
    assert_eq!(names, vec!["wtype", "dotool", "wl-copy", "incant-daemon", "incant-overlay"]);
}

#[test]
fn model_check_takes_first_candidate() {
    assert_eq!(model_candidates().len(), 3);
    let c = check_model(&[false, true, true]);
    assert_eq!(c.message, "found at ~/.cache/incant/models/parakeet-tdt-0.6b-v2-int8");
    assert_eq!(check_model(&[false, false, false]).result, CheckResult::Fail);
}

#[test]
fn sherpa_library_check() {
    assert_eq!(check_sherpa_libs(true, None, None).message, "found in /usr/lib/incant");
    let c = check_sherpa_libs(false, Some("\tlibz.so.1\n\tlibsherpa-onnx-c-api.so (libc6,x86-64)\n"), None);
    assert_eq!(c.message, "found via ldconfig");
    let c = check_sherpa_libs(false, Some("libz.so.1\n"), Some("/home/u/.cache/sherpa-rs/x/lib"));
    assert_eq!(c.result, CheckResult::Warn);
    assert_eq!(c.message, "found at /home/u/.cache/sherpa-rs/x/lib \u{2014} set LD_LIBRARY_PATH");
    assert_eq!(check_sherpa_libs(false, None, None).result, CheckResult::Fail);
}

#[test]
fn socket_and_daemon_checks() {
    assert_eq!(check_socket_path("/run/user/1000/incant", SocketProbe::Created).message, "writable at /run/user/1000/incant");
    let c = check_socket_path("/x", SocketProbe::NotWritable("Permission denied (os error 13)".to_string()));
    assert_eq!(c.message, "not writable: Permission denied (os error 13)");
    assert_eq!(c.fix.as_deref(), Some("Fix permissions on /x"));
    assert_eq!(ping_request(), "{\"cmd\":\"ping\"}");
    let ok = check_daemon_reachable(DaemonProbe::Replied("{\"ok\":true,\"message\":\"pong\",\"state\":null}".to_string()));
    assert_eq!(ok.result, CheckResult::Pass);
    let odd = check_daemon_reachable(DaemonProbe::Replied("{\"ok\":false}".to_string()));
    assert_eq!(odd.result, CheckResult::Warn);
    let c = check_daemon_reachable(DaemonProbe::ConnectFailed("No such file or directory (os error 2)".to_string()));
    assert_eq!(c.message, "Cannot connect to socket: No such file or directory (os error 2)");
    assert_eq!(check_daemon_reachable(DaemonProbe::WriteFailed).result, CheckResult::Fail);
    assert_eq!(check_daemon_reachable(DaemonProbe::NoReply).result, CheckResult::Fail);
}

#[test]
fn report_summary_and_lines() {
    let checks: Vec<Check> = vec![check_hyprland(true), check_hyprland(false), check_pipewire(false), check_wayland(Some("w"))];
    let s = summarize(&checks);
    assert_eq!((s.passed, s.warnings, s.failures), (2, 1, 1));
    assert!(s.failed());
    assert_eq!(s.verdict(), "  \u{274c} 1 check(s) failed. Please fix the issues above and run again.\n");
    let s = summarize(&checks[..2]);
    assert_eq!(s.verdict(), "  \u{26a0}\u{fe0f}  1 warning(s). Incant will work, but some features may be limited.\n");
    let s = summarize(&checks[..1]);
    assert!(!s.failed());
    assert_eq!(s.verdict(), "  \u{2705} All checks passed. Incant is ready!\n");

    let lines = format_check(&checks[1]);
    assert_eq!(lines.len(), 2);
    assert_eq!(lines[0], format!("  \x1b[33m\u{26a0}\u{fe0f} \x1b[0m  {:<28} {}", "Window manager", "Hyprland not detected"));
    assert_eq!(
        lines[1],
        "        \x1b[33m\u{2192}\x1b[0m Incant is designed for Hyprland. Other compositors may work partially."
    );
    assert_eq!(format_check(&checks[0]).len(), 1);
}
