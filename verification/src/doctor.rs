use vstd::prelude::*;
use crate::text::{contains, contains_spec, decimal, decimal_spec, lines_of, lines_spec, pad_right, pad_right_spec, strings_view};

verus! {

/// Outcome of one diagnostic check.
#[derive(Debug, Clone, Copy, PartialEq, Eq, Structural)]
pub enum CheckResult {
    Pass,
    Warn,
    Fail,
}

/// One line of the diagnostic report.
pub struct Check {
    pub name: String,
    pub result: CheckResult,
    pub message: String,
    pub fix: Option<String>,
}

pub ghost struct CheckView {
    pub name: Seq<char>,
    pub result: CheckResult,
    pub message: Seq<char>,
    pub fix: Option<Seq<char>>,
}

impl View for Check {
    type V = CheckView;

    open spec fn view(&self) -> CheckView {
        CheckView {
            name: self.name@,
            result: self.result,
            message: self.message@,
            fix: match self.fix {
                Some(f) => Some(f@),
                None => None,
            },
        }
    }
}

pub open spec fn cv(name: Seq<char>, result: CheckResult, message: Seq<char>, fix: Option<Seq<char>>) -> CheckView {
    CheckView { name, result, message, fix }
}

fn make(name: &str, result: CheckResult, message: &str, fix: Option<&str>) -> (c: Check)
    ensures
        c@ == cv(name@, result, message@, match fix {
            Some(f) => Some(f@),
            None => None,
        }),
{
    Check {
        name: String::from_str(name),
        result,
        message: String::from_str(message),
        fix: match fix {
            Some(f) => Some(String::from_str(f)),
            None => None,
        },
    }
}

fn concat(a: &str, b: &str) -> (s: String)
    ensures
        s@ == a@ + b@,
{
    let mut s = String::from_str(a);
    s.append(b);
    s
}

/// The Wayland check, given the value of `WAYLAND_DISPLAY` if it is set.
pub fn check_wayland(display: Option<&str>) -> (c: Check)
    ensures
        c@ == match display {
            Some(d) => cv("Wayland display"@, CheckResult::Pass, d@, None),
            None => cv(
                "Wayland display"@,
                CheckResult::Fail,
                "WAYLAND_DISPLAY not set"@,
                Some("Incant requires a Wayland session."@),
            ),
        },
{
    match display {
        Some(d) => make("Wayland display", CheckResult::Pass, d, None),
        None => make("Wayland display", CheckResult::Fail, "WAYLAND_DISPLAY not set", Some("Incant requires a Wayland session.")),
    }
}

/// The window manager check, given whether a Hyprland instance is detected.
pub fn check_hyprland(detected: bool) -> (c: Check)
    ensures
        c@ == if detected {
            cv("Window manager"@, CheckResult::Pass, "Hyprland detected"@, None)
        } else {
            cv(
                "Window manager"@,
                CheckResult::Warn,
                "Hyprland not detected"@,
                Some("Incant is designed for Hyprland. Other compositors may work partially."@),
            )
        },
{
    if detected {
        make("Window manager", CheckResult::Pass, "Hyprland detected", None)
    } else {
        make(
            "Window manager",
            CheckResult::Warn,
            "Hyprland not detected",
            Some("Incant is designed for Hyprland. Other compositors may work partially."),
        )
    }
}

/// The audio server check, given whether `pactl info` succeeded.
pub fn check_pipewire(reachable: bool) -> (c: Check)
    ensures
        c@ == if reachable {
            cv("PipeWire / PulseAudio"@, CheckResult::Pass, "Audio server reachable"@, None)
        } else {
            cv(
                "PipeWire / PulseAudio"@,
                CheckResult::Fail,
                "pactl info failed \u{2014} is PipeWire running?"@,
                Some("Start PipeWire: systemctl --user start pipewire pipewire-pulse"@),
            )
        },
{
    if reachable {
        make("PipeWire / PulseAudio", CheckResult::Pass, "Audio server reachable", None)
    } else {
        make(
            "PipeWire / PulseAudio",
            CheckResult::Fail,
            "pactl info failed \u{2014} is PipeWire running?",
            Some("Start PipeWire: systemctl --user start pipewire pipewire-pulse"),
        )
    }
}

/// How many of the lines are not empty.
pub open spec fn count_nonempty(ls: Seq<Seq<char>>) -> nat
    decreases ls.len(),
{
    if ls.len() == 0 {
        0
    } else {
        count_nonempty(ls.drop_last()) + if ls.last().len() > 0 { 1nat } else { 0nat }
    }
}

/// Some line holds `needle`.
pub open spec fn some_line_contains(ls: Seq<Seq<char>>, needle: Seq<char>) -> bool {
    exists|i: int| 0 <= i < ls.len() && contains_spec(#[trigger] ls[i], needle)
}

/// The microphone check, given the listing of `pactl list sources short`
/// (nothing if it could not be obtained): it passes when a source line
/// mentions an input, and reports how many source lines there are.
pub fn check_microphone(listing: Option<&str>) -> (c: Check)
    ensures
        c@ == match listing {
            Some(out) => {
                let ls = lines_spec(out@);
                if some_line_contains(ls, "input"@) {
                    cv(
                        "Microphone input"@,
                        CheckResult::Pass,
                        decimal_spec(count_nonempty(ls)) + " source(s) found"@,
                        None,
                    )
                } else {
                    cv(
                        "Microphone input"@,
                        CheckResult::Warn,
                        "No input sources detected"@,
                        Some("Check that a microphone is connected and not muted."@),
                    )
                }
            },
            None => cv(
                "Microphone input"@,
                CheckResult::Warn,
                "Could not enumerate audio sources"@,
                Some("Ensure PipeWire is running."@),
            ),
        },
{
    match listing {
        Some(out) => {
            let ls = lines_of(out);
            let ghost lv = strings_view(ls@);
            let mut count: u64 = 0;
            let mut found = false;
            let mut i: usize = 0;
            while i < ls.len()
                invariant
                    i <= ls@.len(),
                    lv == strings_view(ls@),
                    count == count_nonempty(lv.take(i as int)),
                    count <= i,
                    found == exists|k: int| 0 <= k < i && contains_spec(#[trigger] lv[k], "input"@),
                decreases ls@.len() - i,
            {
                let line = ls[i].as_str();
                assert(line@ == lv[i as int]);
                assert(lv.take(i + 1).drop_last() =~= lv.take(i as int));
                if line.unicode_len() > 0 {
                    count = count + 1;
                }
                if contains(line, "input") {
                    found = true;
                }
                i = i + 1;
            }
            assert(lv.take(ls@.len() as int) =~= lv);
            if found {
                let n = decimal(count);
                let msg = concat(n.as_str(), " source(s) found");
                Check { name: String::from_str("Microphone input"), result: CheckResult::Pass, message: msg, fix: None }
            } else {
                make(
                    "Microphone input",
                    CheckResult::Warn,
                    "No input sources detected",
                    Some("Check that a microphone is connected and not muted."),
                )
            }
        },
        None => make(
            "Microphone input",
            CheckResult::Warn,
            "Could not enumerate audio sources",
            Some("Ensure PipeWire is running."),
        ),
    }
}

/// The check for a program on `PATH`: a missing required program fails, a
/// missing optional one warns.
pub fn check_binary(name: &str, found: bool, required: bool) -> (c: Check)
    ensures
        c@ == if found {
            cv(name@, CheckResult::Pass, "found in PATH"@, None)
        } else if required {
            cv(name@, CheckResult::Fail, "not found in PATH"@, Some("Install "@ + name@ + " (see README for package name)."@))
        } else {
            cv(name@, CheckResult::Warn, "not found in PATH (optional)"@, Some("Install "@ + name@ + " if you want this fallback."@))
        },
{
    if found {
        make(name, CheckResult::Pass, "found in PATH", None)
    } else if required {
        let fix = concat(concat("Install ", name).as_str(), " (see README for package name).");
        Check { name: String::from_str(name), result: CheckResult::Fail, message: String::from_str("not found in PATH"), fix: Some(fix) }
    } else {
        let fix = concat(concat("Install ", name).as_str(), " if you want this fallback.");
        Check {
            name: String::from_str(name),
            result: CheckResult::Warn,
            message: String::from_str("not found in PATH (optional)"),
            fix: Some(fix),
        }
    }
}

/// The programs checked for on `PATH`, each with whether it is required.
pub open spec fn checked_programs() -> Seq<(Seq<char>, bool)> {
    seq![
        ("wtype"@, true),
        ("dotool"@, false),
        ("wl-copy"@, false),
        ("incant-daemon"@, true),
        ("incant-overlay"@, true),
    ]
}

/// The programs checked for on `PATH`, in report order, each with whether it
/// is required.
pub fn programs_to_check() -> (v: Vec<(&'static str, bool)>)
    ensures
        v@.map_values(|p: (&'static str, bool)| (p.0@, p.1)) == checked_programs(),
{
    let mut v: Vec<(&'static str, bool)> = Vec::new();
    v.push(("wtype", true));
    v.push(("dotool", false));
    v.push(("wl-copy", false));
    v.push(("incant-daemon", true));
    v.push(("incant-overlay", true));
    assert(v@.map_values(|p: (&'static str, bool)| (p.0@, p.1)) =~= checked_programs());
    v
}

/// The model directories looked for under the model cache, in order.
pub open spec fn model_candidates_spec() -> Seq<Seq<char>> {
    seq!["parakeet-tdt-0.6b-v3-int8"@, "parakeet-tdt-0.6b-v2-int8"@, "moonshine-tiny-en-int8"@]
}

/// The model directories looked for under the model cache, in order.
pub fn model_candidates() -> (v: Vec<&'static str>)
    ensures
        v@.map_values(|s: &'static str| s@) == model_candidates_spec(),
{
    let mut v: Vec<&'static str> = Vec::new();
    v.push("parakeet-tdt-0.6b-v3-int8");
    v.push("parakeet-tdt-0.6b-v2-int8");
    v.push("moonshine-tiny-en-int8");
    assert(v@.map_values(|s: &'static str| s@) =~= model_candidates_spec());
    v
}

/// The model check, given for each candidate directory whether it is a
/// non-empty directory: the first such candidate passes.
pub fn check_model(present: &[bool]) -> (c: Check)
    requires
        present@.len() == model_candidates_spec().len(),
    ensures
        match first_true(present@) {
            Some(i) => c@ == cv(
                "STT model"@,
                CheckResult::Pass,
                "found at ~/.cache/incant/models/"@ + model_candidates_spec()[i as int],
                None,
            ),
            None => c@ == cv(
                "STT model"@,
                CheckResult::Fail,
                "No model found in ~/.cache/incant/models"@,
                Some("Run: incant-daemon download-model"@),
            ),
        },
{
    let cands = model_candidates();
    let mut i: usize = 0;
    while i < present.len()
        invariant
            i <= present@.len(),
            present@.len() == cands@.len(),
            cands@.map_values(|s: &'static str| s@) == model_candidates_spec(),
            forall|k: int| 0 <= k < i ==> !present@[k],
        decreases present@.len() - i,
    {
        if present[i] {
            proof {
                lemma_first_true_is(present@, i as int);
            }
            assert(cands@[i as int]@ == model_candidates_spec()[i as int]);
            let msg = concat("found at ~/.cache/incant/models/", cands[i]);
            return Check { name: String::from_str("STT model"), result: CheckResult::Pass, message: msg, fix: None };
        }
        i = i + 1;
    }
    proof {
        lemma_first_true_none(present@);
    }
    make("STT model", CheckResult::Fail, "No model found in ~/.cache/incant/models", Some("Run: incant-daemon download-model"))
}

/// The position of the first `true`, if any.
pub open spec fn first_true(s: Seq<bool>) -> Option<nat>
    decreases s.len(),
{
    if s.len() == 0 {
        None
    } else if s[0] {
        Some(0)
    } else {
        match first_true(s.drop_first()) {
            Some(i) => Some(i + 1),
            None => None,
        }
    }
}

proof fn lemma_first_true_is(s: Seq<bool>, i: int)
    requires
        0 <= i < s.len(),
        s[i],
        forall|k: int| 0 <= k < i ==> !s[k],
    ensures
        first_true(s) == Some(i as nat),
    decreases i,
{
    if i > 0 {
        let t = s.drop_first();
        assert forall|k: int| 0 <= k < i - 1 implies !t[k] by {
            assert(t[k] == s[k + 1]);
        }
        lemma_first_true_is(t, i - 1);
    }
}

proof fn lemma_first_true_none(s: Seq<bool>)
    requires
        forall|k: int| 0 <= k < s.len() ==> !s[k],
    ensures
        first_true(s) is None,
    decreases s.len(),
{
    if s.len() > 0 {
        let t = s.drop_first();
        assert forall|k: int| 0 <= k < t.len() implies !t[k] by {
            assert(t[k] == s[k + 1]);
        }
        lemma_first_true_none(t);
    }
}

/// The check for the speech library, given whether it is installed
/// system-wide, the dynamic linker cache listing (nothing if it could not be
/// obtained), and the library directory of a development build in the cache,
/// if one was found.
pub fn check_sherpa_libs(system_wide: bool, ldconfig_listing: Option<&str>, cache_lib_dir: Option<&str>) -> (c: Check)
    ensures
        c@ == if system_wide {
            cv("Sherpa-ONNX libraries"@, CheckResult::Pass, "found in /usr/lib/incant"@, None)
        } else if (ldconfig_listing matches Some(l) && some_line_contains(lines_spec(l@), "sherpa-onnx"@)) {
            cv("Sherpa-ONNX libraries"@, CheckResult::Pass, "found via ldconfig"@, None)
        } else if cache_lib_dir is Some {
            cv(
                "Sherpa-ONNX libraries"@,
                CheckResult::Warn,
                "found at "@ + cache_lib_dir->0@ + " \u{2014} set LD_LIBRARY_PATH"@,
                Some("Run with: LD_LIBRARY_PATH=~/.cache/sherpa-rs/.../lib incant-daemon"@),
            )
        } else {
            cv(
                "Sherpa-ONNX libraries"@,
                CheckResult::Fail,
                "libsherpa-onnx-c-api.so not found"@,
                Some("Re-run ./install.sh or set LD_LIBRARY_PATH to the sherpa-rs lib dir."@),
            )
        },
{
    if system_wide {
        return make("Sherpa-ONNX libraries", CheckResult::Pass, "found in /usr/lib/incant", None);
    }
    let known = match ldconfig_listing {
        Some(l) => any_line_contains(l, "sherpa-onnx"),
        None => false,
    };
    if known {
        return make("Sherpa-ONNX libraries", CheckResult::Pass, "found via ldconfig", None);
    }
    match cache_lib_dir {
        Some(dir) => {
            let msg = concat(concat("found at ", dir).as_str(), " \u{2014} set LD_LIBRARY_PATH");
            Check {
                name: String::from_str("Sherpa-ONNX libraries"),
                result: CheckResult::Warn,
                message: msg,
                fix: Some(String::from_str("Run with: LD_LIBRARY_PATH=~/.cache/sherpa-rs/.../lib incant-daemon")),
            }
        },
        None => make(
            "Sherpa-ONNX libraries",
            CheckResult::Fail,
            "libsherpa-onnx-c-api.so not found",
            Some("Re-run ./install.sh or set LD_LIBRARY_PATH to the sherpa-rs lib dir."),
        ),
    }
}

/// Whether some line of `text` holds `needle`.
pub fn any_line_contains(text: &str, needle: &str) -> (b: bool)
    ensures
        b == some_line_contains(lines_spec(text@), needle@),
{
    let ls = lines_of(text);
    let ghost lv = strings_view(ls@);
    let mut i: usize = 0;
    while i < ls.len()
        invariant
            i <= ls@.len(),
            lv == strings_view(ls@),
            lv == lines_spec(text@),
            forall|k: int| 0 <= k < i ==> !contains_spec(#[trigger] lv[k], needle@),
        decreases ls@.len() - i,
    {
        assert(ls@[i as int]@ == lv[i as int]);
        if contains(ls[i].as_str(), needle) {
            return true;
        }
        i = i + 1;
    }
    false
}

/// What probing the socket directory found.
pub enum SocketProbe {
    /// The directory did not exist and was created.
    Created,
    /// A test file could be written in the directory.
    Writable,
    /// Writing a test file failed with this complaint.
    NotWritable(String),
}

/// The socket directory check for directory `dir`.
pub fn check_socket_path(dir: &str, probe: SocketProbe) -> (c: Check)
    ensures
        c@ == match probe {
            SocketProbe::NotWritable(e) => cv(
                "Socket directory"@,
                CheckResult::Fail,
                "not writable: "@ + e@,
                Some("Fix permissions on "@ + dir@),
            ),
            _ => cv("Socket directory"@, CheckResult::Pass, "writable at "@ + dir@, None),
        },
{
    match probe {
        SocketProbe::NotWritable(e) => Check {
            name: String::from_str("Socket directory"),
            result: CheckResult::Fail,
            message: concat("not writable: ", e.as_str()),
            fix: Some(concat("Fix permissions on ", dir)),
        },
        _ => Check {
            name: String::from_str("Socket directory"),
            result: CheckResult::Pass,
            message: concat("writable at ", dir),
            fix: None,
        },
    }
}

/// The request a health check sends to the daemon.
pub fn ping_request() -> (r: &'static str)
    ensures
        r@ == "{\"cmd\":\"ping\"}"@,
{
    "{\"cmd\":\"ping\"}"
}

/// What pinging the daemon found.
pub enum DaemonProbe {
    /// Connecting to the socket failed with this complaint.
    ConnectFailed(String),
    /// Sending the ping failed.
    WriteFailed,
    /// The daemon answered with this line.
    Replied(String),
    /// The daemon closed the connection, or reading failed.
    NoReply,
}

/// The daemon health check.
pub fn check_daemon_reachable(probe: DaemonProbe) -> (c: Check)
    ensures
        c@ == match probe {
            DaemonProbe::ConnectFailed(e) => cv(
                "Daemon health"@,
                CheckResult::Fail,
                "Cannot connect to socket: "@ + e@,
                Some("Start the daemon: systemctl --user start incant-daemon"@),
            ),
            DaemonProbe::WriteFailed => cv(
                "Daemon health"@,
                CheckResult::Fail,
                "Write to socket failed"@,
                Some("Restart the daemon."@),
            ),
            DaemonProbe::Replied(line) => if contains_spec(line@, "pong"@) || contains_spec(line@, "\"ok\":true"@) {
                cv("Daemon health"@, CheckResult::Pass, "Daemon responded to ping"@, None)
            } else {
                cv(
                    "Daemon health"@,
                    CheckResult::Warn,
                    "Unexpected daemon response"@,
                    Some("Daemon may be starting up. Wait a few seconds."@),
                )
            },
            DaemonProbe::NoReply => cv(
                "Daemon health"@,
                CheckResult::Fail,
                "No response from daemon"@,
                Some("Check daemon logs: journalctl --user -u incant-daemon"@),
            ),
        },
{
    match probe {
        DaemonProbe::ConnectFailed(e) => Check {
            name: String::from_str("Daemon health"),
            result: CheckResult::Fail,
            message: concat("Cannot connect to socket: ", e.as_str()),
            fix: Some(String::from_str("Start the daemon: systemctl --user start incant-daemon")),
        },
        DaemonProbe::WriteFailed => make("Daemon health", CheckResult::Fail, "Write to socket failed", Some("Restart the daemon.")),
        DaemonProbe::Replied(line) => {
            if contains(line.as_str(), "pong") || contains(line.as_str(), "\"ok\":true") {
                make("Daemon health", CheckResult::Pass, "Daemon responded to ping", None)
            } else {
                make(
                    "Daemon health",
                    CheckResult::Warn,
                    "Unexpected daemon response",
                    Some("Daemon may be starting up. Wait a few seconds."),
                )
            }
        },
        DaemonProbe::NoReply => make(
            "Daemon health",
            CheckResult::Fail,
            "No response from daemon",
            Some("Check daemon logs: journalctl --user -u incant-daemon"),
        ),
    }
}


pub open spec fn checks_view(cs: Seq<Check>) -> Seq<CheckView> {
    cs.map_values(|c: Check| c@)
}

/// How many checks have outcome `r`.
pub open spec fn count_result(cs: Seq<CheckView>, r: CheckResult) -> nat
    decreases cs.len(),
{
    if cs.len() == 0 {
        0
    } else {
        count_result(cs.drop_last(), r) + if cs.last().result == r { 1nat } else { 0nat }
    }
}

proof fn lemma_count_bounded(cs: Seq<CheckView>, r: CheckResult)
    ensures
        count_result(cs, r) <= cs.len(),
    decreases cs.len(),
{
    if cs.len() > 0 {
        lemma_count_bounded(cs.drop_last(), r);
    }
}

/// Tally of a diagnostic report.
pub struct Summary {
    pub passed: usize,
    pub warnings: usize,
    pub failures: usize,
}

/// Counts the outcomes of the checks.
pub fn summarize(checks: &[Check]) -> (s: Summary)
    ensures
        s.passed == count_result(checks_view(checks@), CheckResult::Pass),
        s.warnings == count_result(checks_view(checks@), CheckResult::Warn),
        s.failures == count_result(checks_view(checks@), CheckResult::Fail),
{
    let ghost cs = checks_view(checks@);
    let mut s = Summary { passed: 0, warnings: 0, failures: 0 };
    let mut i: usize = 0;
    while i < checks.len()
        invariant
            i <= checks@.len(),
            cs == checks_view(checks@),
            s.passed == count_result(cs.take(i as int), CheckResult::Pass),
            s.warnings == count_result(cs.take(i as int), CheckResult::Warn),
            s.failures == count_result(cs.take(i as int), CheckResult::Fail),
        decreases checks@.len() - i,
    {
        proof {
            assert(cs.take(i + 1).drop_last() =~= cs.take(i as int));
            lemma_count_bounded(cs.take(i as int), CheckResult::Pass);
            lemma_count_bounded(cs.take(i as int), CheckResult::Warn);
            lemma_count_bounded(cs.take(i as int), CheckResult::Fail);
        }
        match checks[i].result {
            CheckResult::Pass => s.passed = s.passed + 1,
            CheckResult::Warn => s.warnings = s.warnings + 1,
            CheckResult::Fail => s.failures = s.failures + 1,
        }
        i = i + 1;
    }
    assert(cs.take(checks@.len() as int) =~= cs);
    s
}

/// The closing line of the report, for this many failures and warnings.
pub open spec fn verdict_spec(failures: nat, warnings: nat) -> Seq<char> {
    if failures == 0 && warnings == 0 {
        "  \u{2705} All checks passed. Incant is ready!\n"@
    } else if failures == 0 {
        "  \u{26a0}\u{fe0f}  "@ + decimal_spec(warnings) + " warning(s). Incant will work, but some features may be limited.\n"@
    } else {
        "  \u{274c} "@ + decimal_spec(failures) + " check(s) failed. Please fix the issues above and run again.\n"@
    }
}

impl Summary {
    /// The closing line of the report.
    pub fn verdict(&self) -> (v: String)
        ensures
            v@ == verdict_spec(self.failures as nat, self.warnings as nat),
    {
        if self.failures == 0 && self.warnings == 0 {
            String::from_str("  \u{2705} All checks passed. Incant is ready!\n")
        } else if self.failures == 0 {
            let mut v = String::from_str("  \u{26a0}\u{fe0f}  ");
            v.append(decimal(self.warnings as u64).as_str());
            v.append(" warning(s). Incant will work, but some features may be limited.\n");
            v
        } else {
            let mut v = String::from_str("  \u{274c} ");
            v.append(decimal(self.failures as u64).as_str());
            v.append(" check(s) failed. Please fix the issues above and run again.\n");
            v
        }
    }

    /// Whether the diagnostic run counts as failed (the process exits with 1).
    pub fn failed(&self) -> (b: bool)
        ensures
            b == (self.failures > 0),
    {
        self.failures > 0
    }
}

/// The opening line of the report.
pub fn report_title() -> (t: &'static str)
    ensures
        t@ == "\n  \u{1f52e} Incant Diagnostic\n"@,
{
    "\n  \u{1f52e} Incant Diagnostic\n"
}

pub open spec fn result_color(r: CheckResult) -> Seq<char> {
    match r {
        CheckResult::Pass => "\x1b[32m"@,
        CheckResult::Warn => "\x1b[33m"@,
        CheckResult::Fail => "\x1b[31m"@,
    }
}

pub open spec fn result_icon(r: CheckResult) -> Seq<char> {
    match r {
        CheckResult::Pass => "\u{2705}"@,
        CheckResult::Warn => "\u{26a0}\u{fe0f} "@,
        CheckResult::Fail => "\u{274c}"@,
    }
}

/// Width of the name column of the report.
pub const NAME_WIDTH: usize = 28;

/// The report lines for one check: the outcome icon, the name in a fixed
/// column and the message, then the suggested fix if there is one.
pub open spec fn check_lines(c: CheckView) -> Seq<Seq<char>> {
    let color = result_color(c.result);
    let first = "  "@ + color + result_icon(c.result) + "\x1b[0m"@ + "  "@ + pad_right_spec(c.name, NAME_WIDTH as nat) + " "@ + c.message;
    match c.fix {
        Some(f) => seq![first, "        "@ + color + "\u{2192}"@ + "\x1b[0m"@ + " "@ + f],
        None => seq![first],
    }
}

fn color_of(r: CheckResult) -> (s: &'static str)
    ensures
        s@ == result_color(r),
{
    match r {
        CheckResult::Pass => "\x1b[32m",
        CheckResult::Warn => "\x1b[33m",
        CheckResult::Fail => "\x1b[31m",
    }
}

fn icon_of(r: CheckResult) -> (s: &'static str)
    ensures
        s@ == result_icon(r),
{
    match r {
        CheckResult::Pass => "\u{2705}",
        CheckResult::Warn => "\u{26a0}\u{fe0f} ",
        CheckResult::Fail => "\u{274c}",
    }
}

/// The report lines for one check (see [`check_lines`]).
pub fn format_check(c: &Check) -> (lines: Vec<String>)
    ensures
        strings_view(lines@) == check_lines(c@),
{
    let color = color_of(c.result);
    let mut first = String::from_str("  ");
    first.append(color);
    first.append(icon_of(c.result));
    first.append("\x1b[0m");
    first.append("  ");
    first.append(pad_right(c.name.as_str(), NAME_WIDTH).as_str());
    first.append(" ");
    first.append(c.message.as_str());
    let mut lines: Vec<String> = Vec::new();
    lines.push(first);
    match &c.fix {
        Some(f) => {
            let mut second = String::from_str("        ");
            second.append(color);
            second.append("\u{2192}");
            second.append("\x1b[0m");
            second.append(" ");
            second.append(f.as_str());
            lines.push(second);
        },
        None => {},
    }
    assert(strings_view(lines@) =~= check_lines(c@));
    lines
}

/// The color escape of a result: green for a pass, yellow for a warning, red
/// for a failure.
pub open spec fn ansi_color_of(r: CheckResult) -> Seq<char> {
    match r {
        CheckResult::Pass => "\x1b[32m"@,
        CheckResult::Warn => "\x1b[33m"@,
        CheckResult::Fail => "\x1b[31m"@,
    }
}

/// The report lines of a check show that check's own result and its text:
/// the first line is two spaces, the result's color, its mark (check mark
/// for a pass, warning sign for a warning, cross for a failure), the color
/// reset, and ends with the message; a suggested fix takes a second line in
/// the same color, ending with the fix. Distinct results give distinct marks.
pub proof fn lemma_report_line_shows_result(c: CheckView)
    ensures
        ({
            let lines = check_lines(c);
            let first = lines[0];
            let icon = match c.result {
                CheckResult::Pass => seq!['\u{2705}'],
                CheckResult::Warn => seq!['\u{26a0}', '\u{fe0f}', ' '],
                CheckResult::Fail => seq!['\u{274c}'],
            };
            &&& first.subrange(0, 2) == "  "@
            &&& first.subrange(2, 7) == ansi_color_of(c.result)
            &&& first.subrange(7, 7 + icon.len() as int) == icon
            &&& first.subrange(7 + icon.len() as int, 11 + icon.len() as int) == "\x1b[0m"@
            &&& first.len() >= 11 + icon.len() + c.message.len()
            &&& first.subrange(first.len() - c.message.len(), first.len() as int) == c.message
            &&& lines.len() == if c.fix is Some { 2nat } else { 1nat }
            &&& (c.fix matches Some(f) ==> {
                let second = lines[1];
                &&& second.subrange(8, 13) == ansi_color_of(c.result)
                &&& second.len() >= f.len()
                &&& second.subrange(second.len() - f.len(), second.len() as int) == f
            })
        }),
{
    reveal_strlit("  ");
    reveal_strlit("        ");
    reveal_strlit("\x1b[0m");
    reveal_strlit("\x1b[32m");
    reveal_strlit("\x1b[33m");
    reveal_strlit("\x1b[31m");
    reveal_strlit("\u{2705}");
    reveal_strlit("\u{26a0}\u{fe0f} ");
    reveal_strlit("\u{274c}");
    let first = check_lines(c)[0];
    let head = "  "@ + result_color(c.result) + result_icon(c.result) + "\x1b[0m"@;
    let rest = "  "@ + pad_right_spec(c.name, NAME_WIDTH as nat) + " "@ + c.message;
    assert(first =~= head + rest);
    assert(first.subrange(0, head.len() as int) =~= head);
    assert(first.subrange(0, 2) =~= head.subrange(0, 2));
    assert(first.subrange(2, 7) =~= head.subrange(2, 7));
    let k = result_icon(c.result).len() as int;
    assert(first.subrange(7, 7 + k) =~= head.subrange(7, 7 + k));
    assert(first.subrange(7 + k, 11 + k) =~= head.subrange(7 + k, 11 + k));
    assert(first.subrange(first.len() - c.message.len(), first.len() as int) =~= c.message);
    match c.fix {
        Some(f) => {
            let second = check_lines(c)[1];
            let h2 = "        "@ + result_color(c.result) + "\u{2192}"@ + "\x1b[0m"@ + " "@;
            assert(second =~= h2 + f);
            assert(second.subrange(8, 13) =~= h2.subrange(8, 13));
            assert(second.subrange(second.len() - f.len(), second.len() as int) =~= f);
        },
        None => {},
    }
}

} // verus!
