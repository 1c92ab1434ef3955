use vstd::prelude::*;

verus! {

/// Overlay-visible status of the dictation pipeline.
#[derive(Debug, Clone, Copy, PartialEq, Eq, Structural)]
pub enum Status {
    Hidden,
    Preparing,
    Recording,
    Transcribing,
    Prewarming,
    Error,
}

/// The wire name of a status (also the overlay's CSS class for it).
pub open spec fn status_name(s: Status) -> Seq<char> {
    match s {
        Status::Hidden => "hidden"@,
        Status::Preparing => "preparing"@,
        Status::Recording => "recording"@,
        Status::Transcribing => "transcribing"@,
        Status::Prewarming => "prewarming"@,
        Status::Error => "error"@,
    }
}

impl Status {
    /// Snake-case name of the status, as used on the wire and as the
    /// overlay's CSS class.
    pub fn name(&self) -> (r: &'static str)
        ensures
            r@ == status_name(*self),
    {
        match self {
            Status::Hidden => "hidden",
            Status::Preparing => "preparing",
            Status::Recording => "recording",
            Status::Transcribing => "transcribing",
            Status::Prewarming => "prewarming",
            Status::Error => "error",
        }
    }
}

/// Input level meter. Both readings are single-precision powers carried as
/// their IEEE-754 bit patterns; a zero pattern is `0.0`.
#[derive(Debug, Clone, Copy, PartialEq, Eq, Structural)]
pub struct Meter {
    pub average_power_bits: u32,
    pub peak_power_bits: u32,
}

/// The silent meter (`0.0`, `0.0`).
pub open spec fn silent_meter() -> Meter {
    Meter { average_power_bits: 0, peak_power_bits: 0 }
}

impl Meter {
    /// A meter showing no signal.
    pub fn silent() -> (m: Meter)
        ensures
            m == silent_meter(),
    {
        Meter { average_power_bits: 0, peak_power_bits: 0 }
    }
}

impl Default for Meter {
    fn default() -> (m: Meter)
        ensures
            m == silent_meter(),
    {
        Meter::silent()
    }
}

/// Commands sent from the CLI or the overlay to the daemon.
#[derive(Debug, Clone, Copy, PartialEq, Eq, Structural)]
pub enum Command {
    Press,
    Release,
    Cancel,
    Status,
    Ping,
}

/// The wire tag of a command (the value of its `cmd` field).
pub open spec fn command_name(c: Command) -> Seq<char> {
    match c {
        Command::Press => "press"@,
        Command::Release => "release"@,
        Command::Cancel => "cancel"@,
        Command::Status => "status"@,
        Command::Ping => "ping"@,
    }
}

impl Command {
    /// The value of the `cmd` field that carries this command on the wire.
    pub fn name(&self) -> (r: &'static str)
        ensures
            r@ == command_name(*self),
    {
        match self {
            Command::Press => "press",
            Command::Release => "release",
            Command::Cancel => "cancel",
            Command::Status => "status",
            Command::Ping => "ping",
        }
    }
}

/// Snapshot of the daemon state broadcast to the overlay and clients.
#[derive(Debug)]
pub struct DaemonState {
    pub status: Status,
    pub meter: Meter,
    pub message: Option<String>,
}

/// Abstract value of a [`DaemonState`].
pub ghost struct DaemonStateView {
    pub status: Status,
    pub meter: Meter,
    pub message: Option<Seq<char>>,
}

pub open spec fn opt_string_view(s: Option<String>) -> Option<Seq<char>> {
    match s {
        Some(t) => Some(t@),
        None => None,
    }
}

impl View for DaemonState {
    type V = DaemonStateView;

    open spec fn view(&self) -> DaemonStateView {
        DaemonStateView { status: self.status, meter: self.meter, message: opt_string_view(self.message) }
    }
}

/// Reply from the daemon to a client.
#[derive(Debug)]
pub struct Response {
    pub ok: bool,
    pub message: String,
    pub state: Option<DaemonState>,
}

/// Abstract value of a [`Response`].
pub ghost struct ResponseView {
    pub ok: bool,
    pub message: Seq<char>,
    pub state: Option<DaemonStateView>,
}

impl View for Response {
    type V = ResponseView;

    open spec fn view(&self) -> ResponseView {
        ResponseView {
            ok: self.ok,
            message: self.message@,
            state: match self.state {
                Some(s) => Some(s@),
                None => None,
            },
        }
    }
}

impl Response {
    /// A successful reply carrying `message` and no state.
    pub fn ok(message: &str) -> (r: Response)
        ensures
            r@ == (ResponseView { ok: true, message: message@, state: None }),
    {
        Response { ok: true, message: String::from_str(message), state: None }
    }

    /// A failed reply carrying `message` and no state.
    pub fn err(message: &str) -> (r: Response)
        ensures
            r@ == (ResponseView { ok: false, message: message@, state: None }),
    {
        Response { ok: false, message: String::from_str(message), state: None }
    }

    /// The same reply with `state` attached.
    pub fn with_state(self, state: DaemonState) -> (r: Response)
        ensures
            r@ == (ResponseView { state: Some(state@), ..self@ }),
    {
        let mut r = self;
        r.state = Some(state);
        r
    }
}


/// Distinct statuses have distinct wire names.
pub proof fn lemma_status_names_distinct(a: Status, b: Status)
    requires
        status_name(a) == status_name(b),
    ensures
        a == b,
{
    reveal_strlit("hidden");
    reveal_strlit("preparing");
    reveal_strlit("recording");
    reveal_strlit("transcribing");
    reveal_strlit("prewarming");
    reveal_strlit("error");
    let x = status_name(a);
    let y = status_name(b);
    assert(x.len() == y.len());
    if x.len() > 0 {
        assert(x[0] == y[0]);
    }
    match a {
        Status::Hidden => assert(x.len() == 6),
        Status::Preparing => assert(x.len() == 9 && x[0] == 'p'),
        Status::Recording => assert(x.len() == 9 && x[0] == 'r'),
        Status::Transcribing => assert(x.len() == 12),
        Status::Prewarming => assert(x.len() == 10),
        Status::Error => assert(x.len() == 5),
    }
    match b {
        Status::Hidden => assert(y.len() == 6),
        Status::Preparing => assert(y.len() == 9 && y[0] == 'p'),
        Status::Recording => assert(y.len() == 9 && y[0] == 'r'),
        Status::Transcribing => assert(y.len() == 12),
        Status::Prewarming => assert(y.len() == 10),
        Status::Error => assert(y.len() == 5),
    }
}

/// Distinct commands have distinct wire tags.
pub proof fn lemma_command_names_distinct(a: Command, b: Command)
    requires
        command_name(a) == command_name(b),
    ensures
        a == b,
{
    reveal_strlit("press");
    reveal_strlit("release");
    reveal_strlit("cancel");
    reveal_strlit("status");
    reveal_strlit("ping");
    let x = command_name(a);
    let y = command_name(b);
    assert(x.len() == y.len());
    if x.len() > 0 {
        assert(x[0] == y[0]);
    }
    match a {
        Command::Press => assert(x.len() == 5),
        Command::Release => assert(x.len() == 7),
        Command::Cancel => assert(x.len() == 6 && x[0] == 'c'),
        Command::Status => assert(x.len() == 6 && x[0] == 's'),
        Command::Ping => assert(x.len() == 4),
    }
    match b {
        Command::Press => assert(y.len() == 5),
        Command::Release => assert(y.len() == 7),
        Command::Cancel => assert(y.len() == 6 && y[0] == 'c'),
        Command::Status => assert(y.len() == 6 && y[0] == 's'),
        Command::Ping => assert(y.len() == 4),
    }
}

} // verus!
