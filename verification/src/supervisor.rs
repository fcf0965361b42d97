//! The driver supervisor: a state machine that decides, event by event,
//! how one `launch` proceeds — probing Chrome's version, checking the
//! version stamp, refreshing the cache, spawning the driver and waiting for
//! its readiness line.  The embedding application performs each returned
//! action and feeds the outcome back as the next event.

use vstd::prelude::*;
use vstd::string::StringExecFns;
use crate::cache::{archive_path, archive_path_spec, driver_path, driver_path_spec, stamp_path,
    stamp_path_spec, stamp_status, stamp_status_spec, StampStatus};
use crate::errors::DriverError;
use crate::platform::{chrome_path_spec, detect_args_spec, detect_command, detect_program_spec,
    url_spec, HostArch, HostOs, Platform};
use crate::text::{contains_seq, contains_str, join2, trim_spec};
use crate::version::{detected_version, get_version_info, valid_version};

verus! {

/// The readiness sentinel: the substring whose appearance on the driver's
/// standard output signals that it has bound its port.
pub open spec fn is_ready_line(line: Seq<char>) -> bool {
    contains_seq(line, "successfully"@)
}

/// Whether one stdout line signals readiness.
pub fn line_is_ready(line: &str) -> (r: bool)
    ensures
        r == is_ready_line(line@),
{
    contains_str(line, "successfully")
}

/// Where one launch stands.  The version-carrying states remember what the
/// detector returned.
pub enum LaunchState {
    Idle,
    Probing,
    CacheCheck { version: String },
    Wiping { version: String },
    Fetching { version: String },
    Stamping { version: String },
    Spawning { version: String },
    AwaitingReady { version: String },
    Running { version: String },
    Failed { error: DriverError },
}

/// What the application reports back after performing an action.
pub enum LaunchEvent {
    /// The caller asked for a launch.
    Start,
    /// The version probe command finished with this standard output, or
    /// could not be invoked at all (`None`).
    ChromeOutput { output: Option<String> },
    /// The stamp file held these contents, or was absent (`None`).
    StampRead { contents: Option<String> },
    /// The cache root was removed and recreated, or that failed.
    WipeDone { ok: bool },
    /// Download and extraction finished (`None`), or failed with an error.
    FetchDone { error: Option<DriverError> },
    /// The stamp file was written, or that failed.
    StampWritten { ok: bool },
    /// The driver child process was spawned, or that failed.
    SpawnResult { ok: bool },
    /// One line of the child's standard output, or its end (`None`).
    Line { line: Option<String> },
}

/// What the application must do next.
pub enum LaunchAction {
    /// Run the version probe command and report its standard output.
    DetectChrome { program: String, args: Vec<String> },
    /// Read the stamp file at this path and report its contents.
    ReadStamp { path: String },
    /// Remove the cache root and all its contents, then recreate it empty.
    Wipe { root: String },
    /// Download the archive from `url` to `archive`, extract it into
    /// `root`, and remove the archive file.
    Fetch { url: String, archive: String, root: String },
    /// Write `version` to the stamp file at `path`.
    WriteStamp { path: String, version: String },
    /// Set the capabilities' binary field to `binary`, then spawn `driver`
    /// with the single argument `port_arg`, standard output piped.
    Spawn { driver: String, binary: String, port_arg: String },
    /// Read the next line of the child's standard output.
    AwaitLine,
    /// Hand the running child to the caller.
    Surrender,
    /// Give up with this error, reaping any spawned child.
    Fail { error: DriverError },
}

/// `LaunchState` over views.
pub enum StateSpec {
    Idle,
    Probing,
    CacheCheck { version: Seq<char> },
    Wiping { version: Seq<char> },
    Fetching { version: Seq<char> },
    Stamping { version: Seq<char> },
    Spawning { version: Seq<char> },
    AwaitingReady { version: Seq<char> },
    Running { version: Seq<char> },
    Failed { error: DriverError },
}

/// `LaunchEvent` over views.
pub enum EventSpec {
    Start,
    ChromeOutput { output: Option<Seq<char>> },
    StampRead { contents: Option<Seq<char>> },
    WipeDone { ok: bool },
    FetchDone { error: Option<DriverError> },
    StampWritten { ok: bool },
    SpawnResult { ok: bool },
    Line { line: Option<Seq<char>> },
}

/// `LaunchAction` over views.
pub enum ActionSpec {
    DetectChrome { program: Seq<char>, args: Seq<Seq<char>> },
    ReadStamp { path: Seq<char> },
    Wipe { root: Seq<char> },
    Fetch { url: Seq<char>, archive: Seq<char>, root: Seq<char> },
    WriteStamp { path: Seq<char>, version: Seq<char> },
    Spawn { driver: Seq<char>, binary: Seq<char>, port_arg: Seq<char> },
    AwaitLine,
    Surrender,
    Fail { error: DriverError },
}

impl View for LaunchState {
    type V = StateSpec;

    open spec fn view(&self) -> StateSpec {
        match self {
            LaunchState::Idle => StateSpec::Idle,
            LaunchState::Probing => StateSpec::Probing,
            LaunchState::CacheCheck { version } => StateSpec::CacheCheck { version: version@ },
            LaunchState::Wiping { version } => StateSpec::Wiping { version: version@ },
            LaunchState::Fetching { version } => StateSpec::Fetching { version: version@ },
            LaunchState::Stamping { version } => StateSpec::Stamping { version: version@ },
            LaunchState::Spawning { version } => StateSpec::Spawning { version: version@ },
            LaunchState::AwaitingReady { version } => StateSpec::AwaitingReady {
                version: version@,
            },
            LaunchState::Running { version } => StateSpec::Running { version: version@ },
            LaunchState::Failed { error } => StateSpec::Failed { error: *error },
        }
    }
}

impl View for LaunchEvent {
    type V = EventSpec;

    open spec fn view(&self) -> EventSpec {
        match self {
            LaunchEvent::Start => EventSpec::Start,
            LaunchEvent::ChromeOutput { output } => EventSpec::ChromeOutput {
                output: output.deep_view(),
            },
            LaunchEvent::StampRead { contents } => EventSpec::StampRead {
                contents: contents.deep_view(),
            },
            LaunchEvent::WipeDone { ok } => EventSpec::WipeDone { ok: *ok },
            LaunchEvent::FetchDone { error } => EventSpec::FetchDone { error: *error },
            LaunchEvent::StampWritten { ok } => EventSpec::StampWritten { ok: *ok },
            LaunchEvent::SpawnResult { ok } => EventSpec::SpawnResult { ok: *ok },
            LaunchEvent::Line { line } => EventSpec::Line { line: line.deep_view() },
        }
    }
}

impl View for LaunchAction {
    type V = ActionSpec;

    open spec fn view(&self) -> ActionSpec {
        match self {
            LaunchAction::DetectChrome { program, args } => ActionSpec::DetectChrome {
                program: program@,
                args: args.deep_view(),
            },
            LaunchAction::ReadStamp { path } => ActionSpec::ReadStamp { path: path@ },
            LaunchAction::Wipe { root } => ActionSpec::Wipe { root: root@ },
            LaunchAction::Fetch { url, archive, root } => ActionSpec::Fetch {
                url: url@,
                archive: archive@,
                root: root@,
            },
            LaunchAction::WriteStamp { path, version } => ActionSpec::WriteStamp {
                path: path@,
                version: version@,
            },
            LaunchAction::Spawn { driver, binary, port_arg } => ActionSpec::Spawn {
                driver: driver@,
                binary: binary@,
                port_arg: port_arg@,
            },
            LaunchAction::AwaitLine => ActionSpec::AwaitLine,
            LaunchAction::Surrender => ActionSpec::Surrender,
            LaunchAction::Fail { error } => ActionSpec::Fail { error: *error },
        }
    }
}

/// The failure transition: remember the error and tell the application to
/// give up.
pub open spec fn fail_spec(e: DriverError) -> Option<(StateSpec, ActionSpec)> {
    Option::Some((StateSpec::Failed { error: e }, ActionSpec::Fail { error: e }))
}

/// The spawn action for one context: the driver path under the cache root,
/// the Chrome binary for the capabilities, and the port argument.
pub open spec fn spawn_action_spec(
    os: HostOs,
    arch: HostArch,
    root: Seq<char>,
    port: Seq<char>,
) -> ActionSpec {
    ActionSpec::Spawn {
        driver: driver_path_spec(root, os, arch),
        binary: chrome_path_spec(os),
        port_arg: "--port="@ + port,
    }
}

/// The transition relation of one launch, as a function: from the current
/// state and the application's event to the next state and the next action.
/// `None` means the event does not belong to the state; the running and
/// failed states are terminal.
pub open spec fn next(
    os: HostOs,
    arch: HostArch,
    root: Seq<char>,
    port: Seq<char>,
    s: StateSpec,
    e: EventSpec,
) -> Option<(StateSpec, ActionSpec)> {
    match (s, e) {
        (StateSpec::Idle, EventSpec::Start) => Option::Some(
            (
                StateSpec::Probing,
                ActionSpec::DetectChrome {
                    program: detect_program_spec(os),
                    args: detect_args_spec(os),
                },
            ),
        ),
        (StateSpec::Probing, EventSpec::ChromeOutput { output }) => match output {
            Option::None => fail_spec(DriverError::ChromeUnavailable),
            Option::Some(out) => match detected_version(os, out) {
                Option::Some(v) => Option::Some(
                    (
                        StateSpec::CacheCheck { version: v },
                        ActionSpec::ReadStamp { path: stamp_path_spec(root) },
                    ),
                ),
                Option::None => fail_spec(DriverError::VersionFormatInvalid),
            },
        },
        (StateSpec::CacheCheck { version }, EventSpec::StampRead { contents }) => match
            stamp_status_spec(contents, version) {
            StampStatus::Match => Option::Some(
                (
                    StateSpec::Spawning { version },
                    spawn_action_spec(os, arch, root, port),
                ),
            ),
            _ => Option::Some(
                (StateSpec::Wiping { version }, ActionSpec::Wipe { root }),
            ),
        },
        (StateSpec::Wiping { version }, EventSpec::WipeDone { ok }) => if ok {
            Option::Some(
                (
                    StateSpec::Fetching { version },
                    ActionSpec::Fetch {
                        url: url_spec(os, arch, version),
                        archive: archive_path_spec(root, os, arch),
                        root,
                    },
                ),
            )
        } else {
            fail_spec(DriverError::DiskFullOrPermission)
        },
        (StateSpec::Fetching { version }, EventSpec::FetchDone { error }) => match error {
            Option::None => Option::Some(
                (
                    StateSpec::Stamping { version },
                    ActionSpec::WriteStamp { path: stamp_path_spec(root), version },
                ),
            ),
            Option::Some(err) => fail_spec(err),
        },
        (StateSpec::Stamping { version }, EventSpec::StampWritten { ok }) => if ok {
            Option::Some(
                (StateSpec::Spawning { version }, spawn_action_spec(os, arch, root, port)),
            )
        } else {
            fail_spec(DriverError::DiskFullOrPermission)
        },
        (StateSpec::Spawning { version }, EventSpec::SpawnResult { ok }) => if ok {
            Option::Some((StateSpec::AwaitingReady { version }, ActionSpec::AwaitLine))
        } else {
            fail_spec(DriverError::SpawnFailed)
        },
        (StateSpec::AwaitingReady { version }, EventSpec::Line { line }) => match line {
            Option::None => fail_spec(DriverError::ReadinessChannelClosed),
            Option::Some(l) => if is_ready_line(l) {
                Option::Some((StateSpec::Running { version }, ActionSpec::Surrender))
            } else {
                Option::Some((StateSpec::AwaitingReady { version }, ActionSpec::AwaitLine))
            },
        },
        _ => Option::None,
    }
}

/// One supervisor instance drives one driver for one caller-supplied port.
pub struct Supervisor {
    pub platform: Platform,
    pub cache_root: String,
    pub port: String,
}

impl Supervisor {
    pub open spec fn wf(self) -> bool {
        self.platform.wf()
    }

    pub fn new(platform: Platform, cache_root: String, port: String) -> (s: Supervisor)
        requires
            platform.wf(),
        ensures
            s.platform == platform,
            s.cache_root == cache_root,
            s.port == port,
            s.wf(),
    {
        Supervisor { platform, cache_root, port }
    }

    fn spawn_action(&self) -> (a: LaunchAction)
        requires
            self.wf(),
        ensures
            a@ == spawn_action_spec(self.platform.os, self.platform.arch, self.cache_root@,
                self.port@),
    {
        let driver = driver_path(self.cache_root.as_str(), self.platform.os, self.platform.arch);
        let binary = self.platform.chrome_path.clone();
        let port_arg = join2("--port=", self.port.as_str());
        LaunchAction::Spawn { driver, binary, port_arg }
    }

    /// One transition of the launch state machine, exactly as `next`
    /// describes it.
    pub fn step(&self, state: LaunchState, event: LaunchEvent) -> (r: Option<
        (LaunchState, LaunchAction),
    >)
        requires
            self.wf(),
        ensures
            r matches Some(p) ==> next(self.platform.os, self.platform.arch, self.cache_root@,
                self.port@, state@, event@) == Some((p.0@, p.1@)),
            r is None ==> next(self.platform.os, self.platform.arch, self.cache_root@, self.port@,
                state@, event@) is None,
    {
        match (state, event) {
            (LaunchState::Idle, LaunchEvent::Start) => {
                let (program, args) = detect_command(self.platform.os);
                Option::Some((LaunchState::Probing, LaunchAction::DetectChrome { program, args }))
            },
            (LaunchState::Probing, LaunchEvent::ChromeOutput { output }) => match output {
                Option::None => Option::Some(self.fail(DriverError::ChromeUnavailable)),
                Option::Some(out) => match get_version_info(self.platform.os, out.as_str()) {
                    Result::Ok(version) => {
                        let path = stamp_path(self.cache_root.as_str());
                        Option::Some(
                            (
                                LaunchState::CacheCheck { version },
                                LaunchAction::ReadStamp { path },
                            ),
                        )
                    },
                    Result::Err(_) => Option::Some(self.fail(DriverError::VersionFormatInvalid)),
                },
            },
            (LaunchState::CacheCheck { version }, LaunchEvent::StampRead { contents }) => {
                let status = stamp_status(
                    match &contents {
                        Option::Some(c) => Option::Some(c.as_str()),
                        Option::None => Option::None,
                    },
                    version.as_str(),
                );
                if status == StampStatus::Match {
                    let action = self.spawn_action();
                    Option::Some((LaunchState::Spawning { version }, action))
                } else {
                    let root = self.cache_root.clone();
                    Option::Some((LaunchState::Wiping { version }, LaunchAction::Wipe { root }))
                }
            },
            (LaunchState::Wiping { version }, LaunchEvent::WipeDone { ok }) => if ok {
                let url = self.platform.url_for(version.as_str());
                let archive = archive_path(
                    self.cache_root.as_str(),
                    self.platform.os,
                    self.platform.arch,
                );
                let root = self.cache_root.clone();
                Option::Some(
                    (
                        LaunchState::Fetching { version },
                        LaunchAction::Fetch { url, archive, root },
                    ),
                )
            } else {
                Option::Some(self.fail(DriverError::DiskFullOrPermission))
            },
            (LaunchState::Fetching { version }, LaunchEvent::FetchDone { error }) => match error {
                Option::None => {
                    let path = stamp_path(self.cache_root.as_str());
                    let stamped = version.clone();
                    Option::Some(
                        (
                            LaunchState::Stamping { version },
                            LaunchAction::WriteStamp { path, version: stamped },
                        ),
                    )
                },
                Option::Some(err) => Option::Some(self.fail(err)),
            },
            (LaunchState::Stamping { version }, LaunchEvent::StampWritten { ok }) => if ok {
                let action = self.spawn_action();
                Option::Some((LaunchState::Spawning { version }, action))
            } else {
                Option::Some(self.fail(DriverError::DiskFullOrPermission))
            },
            (LaunchState::Spawning { version }, LaunchEvent::SpawnResult { ok }) => if ok {
                Option::Some((LaunchState::AwaitingReady { version }, LaunchAction::AwaitLine))
            } else {
                Option::Some(self.fail(DriverError::SpawnFailed))
            },
            (LaunchState::AwaitingReady { version }, LaunchEvent::Line { line }) => match line {
                Option::None => Option::Some(self.fail(DriverError::ReadinessChannelClosed)),
                Option::Some(l) => if line_is_ready(l.as_str()) {
                    Option::Some((LaunchState::Running { version }, LaunchAction::Surrender))
                } else {
                    Option::Some(
                        (LaunchState::AwaitingReady { version }, LaunchAction::AwaitLine),
                    )
                },
            },
            (_, _) => Option::None,
        }
    }

    fn fail(&self, e: DriverError) -> (r: (LaunchState, LaunchAction))
        ensures
            (r.0@, r.1@) == fail_spec(e)->0,
    {
        (LaunchState::Failed { error: e }, LaunchAction::Fail { error: e })
    }
}

/// The version a state remembers, if any.
pub open spec fn state_version(s: StateSpec) -> Option<Seq<char>> {
    match s {
        StateSpec::CacheCheck { version } => Option::Some(version),
        StateSpec::Wiping { version } => Option::Some(version),
        StateSpec::Fetching { version } => Option::Some(version),
        StateSpec::Stamping { version } => Option::Some(version),
        StateSpec::Spawning { version } => Option::Some(version),
        StateSpec::AwaitingReady { version } => Option::Some(version),
        StateSpec::Running { version } => Option::Some(version),
        _ => Option::None,
    }
}

/// How far a launch has progressed; transitions never go backwards.
pub open spec fn phase(s: StateSpec) -> int {
    match s {
        StateSpec::Idle => 0,
        StateSpec::Probing => 1,
        StateSpec::CacheCheck { .. } => 2,
        StateSpec::Wiping { .. } => 3,
        StateSpec::Fetching { .. } => 4,
        StateSpec::Stamping { .. } => 5,
        StateSpec::Spawning { .. } => 6,
        StateSpec::AwaitingReady { .. } => 7,
        StateSpec::Running { .. } => 8,
        StateSpec::Failed { .. } => 9,
    }
}

/// The supervisor surrenders the child exactly upon the first stdout line
/// containing the readiness sentinel: no transition emits `Surrender`
/// otherwise, and that line always yields the running state at once.
pub proof fn lemma_ready_handshake(
    os: HostOs,
    arch: HostArch,
    root: Seq<char>,
    port: Seq<char>,
    s: StateSpec,
    e: EventSpec,
    ns: StateSpec,
    a: ActionSpec,
)
    requires
        next(os, arch, root, port, s, e) == Option::Some((ns, a)),
    ensures
        a is Surrender ==> s is AwaitingReady && (e matches EventSpec::Line {
            line: Option::Some(l),
        } && is_ready_line(l)),
        s is AwaitingReady && (e matches EventSpec::Line { line: Option::Some(l) }
            && is_ready_line(l)) ==> a is Surrender,
        a is Surrender ==> ns is Running,
{
}

/// Every emitted spawn command is exact: the driver path under the cache
/// root, the Chrome binary of the mapping table as the capabilities'
/// binary, and `--port=<port>` as the sole argument; and it is emitted only
/// on entry to the spawning state, from the cache check or the stamping
/// state.
pub proof fn lemma_spawn_command(
    os: HostOs,
    arch: HostArch,
    root: Seq<char>,
    port: Seq<char>,
    s: StateSpec,
    e: EventSpec,
    ns: StateSpec,
    a: ActionSpec,
)
    requires
        next(os, arch, root, port, s, e) == Option::Some((ns, a)),
        a is Spawn,
    ensures
        a == spawn_action_spec(os, arch, root, port),
        ns is Spawning,
        s is CacheCheck || s is Stamping,
{
}

/// A fetch is ordered only right after a successful wipe of the cache root
/// (stale artifacts never survive into a refresh), and the wiping state is
/// entered only with the wipe order itself.
pub proof fn lemma_wipe_precedes_fetch(
    os: HostOs,
    arch: HostArch,
    root: Seq<char>,
    port: Seq<char>,
    s: StateSpec,
    e: EventSpec,
    ns: StateSpec,
    a: ActionSpec,
)
    requires
        next(os, arch, root, port, s, e) == Option::Some((ns, a)),
    ensures
        a is Fetch ==> s is Wiping && e == (EventSpec::WipeDone { ok: true }),
        a matches ActionSpec::Fetch { url, archive, root: r } ==> s matches StateSpec::Wiping {
            version,
        } && url == url_spec(os, arch, version) && archive == archive_path_spec(root, os, arch)
            && r == root,
        ns is Wiping ==> a == (ActionSpec::Wipe { root }),
        ns is Fetching ==> a is Fetch,
{
}

/// The stamp is written only after the fetch and extraction have succeeded,
/// and it is written with exactly the version the detector returned.
pub proof fn lemma_stamp_after_extract(
    os: HostOs,
    arch: HostArch,
    root: Seq<char>,
    port: Seq<char>,
    s: StateSpec,
    e: EventSpec,
    ns: StateSpec,
    a: ActionSpec,
)
    requires
        next(os, arch, root, port, s, e) == Option::Some((ns, a)),
    ensures
        a is WriteStamp ==> s is Fetching && e == (EventSpec::FetchDone { error: Option::None }),
        a matches ActionSpec::WriteStamp { path, version } ==> path == stamp_path_spec(root)
            && state_version(s) == Option::Some(version),
        ns matches StateSpec::Stamping { version } ==> a == (ActionSpec::WriteStamp {
            path: stamp_path_spec(root),
            version,
        }),
{
}

/// Once a state remembers a version, that version came from the detector,
/// is well-formed, and never changes until the launch fails or finishes.
pub proof fn lemma_version_provenance(
    os: HostOs,
    arch: HostArch,
    root: Seq<char>,
    port: Seq<char>,
    s: StateSpec,
    e: EventSpec,
    ns: StateSpec,
    a: ActionSpec,
)
    requires
        next(os, arch, root, port, s, e) == Option::Some((ns, a)),
    ensures
        state_version(s) is Some && !(ns is Failed) ==> state_version(ns) == state_version(s),
        state_version(ns) matches Some(v) ==> (state_version(s) is None ==> s is Probing && (
        e matches EventSpec::ChromeOutput { output: Option::Some(out) } && detected_version(os, out)
            == Option::Some(v))),
        state_version(ns) matches Some(v) ==> (state_version(s) matches Some(w) ==> (valid_version(
            w,
        ) ==> valid_version(v))),
{
    crate::version::lemma_detected_version_valid(os, match e {
        EventSpec::ChromeOutput { output: Option::Some(out) } => out,
        _ => Seq::empty(),
    });
}

/// Transitions never move a launch backwards.
pub proof fn lemma_phase_monotone_step(
    os: HostOs,
    arch: HostArch,
    root: Seq<char>,
    port: Seq<char>,
    s: StateSpec,
    e: EventSpec,
    ns: StateSpec,
    a: ActionSpec,
)
    requires
        next(os, arch, root, port, s, e) == Option::Some((ns, a)),
    ensures
        phase(ns) >= phase(s),
{
}

/// A run of the machine: consecutive states are related by `next`, with the
/// action emitted at each transition.
pub open spec fn trace_ok(
    os: HostOs,
    arch: HostArch,
    root: Seq<char>,
    port: Seq<char>,
    states: Seq<StateSpec>,
    events: Seq<EventSpec>,
    actions: Seq<ActionSpec>,
) -> bool {
    &&& states.len() == events.len() + 1
    &&& actions.len() == events.len()
    &&& forall|i: int|
        0 <= i < events.len() ==> next(os, arch, root, port, #[trigger] states[i], events[i])
            == Option::Some((states[i + 1], actions[i]))
}

proof fn lemma_phase_monotone_trace(
    os: HostOs,
    arch: HostArch,
    root: Seq<char>,
    port: Seq<char>,
    states: Seq<StateSpec>,
    events: Seq<EventSpec>,
    actions: Seq<ActionSpec>,
    i: int,
    j: int,
)
    requires
        trace_ok(os, arch, root, port, states, events, actions),
        0 <= i <= j < states.len(),
    ensures
        phase(states[j]) >= phase(states[i]),
    decreases j - i,
{
    if i < j {
        lemma_phase_monotone_trace(os, arch, root, port, states, events, actions, i, j - 1);
        lemma_phase_monotone_step(os, arch, root, port, states[j - 1], events[j - 1], states[j],
            actions[j - 1]);
    }
}

/// In any run, the driver is spawned at most once: two distinct transitions
/// never both emit a spawn order.
pub proof fn lemma_spawn_at_most_once(
    os: HostOs,
    arch: HostArch,
    root: Seq<char>,
    port: Seq<char>,
    states: Seq<StateSpec>,
    events: Seq<EventSpec>,
    actions: Seq<ActionSpec>,
    i: int,
    j: int,
)
    requires
        trace_ok(os, arch, root, port, states, events, actions),
        0 <= i < j < actions.len(),
        actions[i] is Spawn,
    ensures
        !(actions[j] is Spawn),
{
    lemma_spawn_command(os, arch, root, port, states[i], events[i], states[i + 1], actions[i]);
    lemma_phase_monotone_trace(os, arch, root, port, states, events, actions, i + 1, j);
    if actions[j] is Spawn {
        lemma_spawn_command(os, arch, root, port, states[j], events[j], states[j + 1], actions[j]);
    }
}

proof fn lemma_spawn_reaches(
    os: HostOs,
    arch: HostArch,
    root: Seq<char>,
    port: Seq<char>,
    states: Seq<StateSpec>,
    events: Seq<EventSpec>,
    actions: Seq<ActionSpec>,
    k: int,
)
    requires
        trace_ok(os, arch, root, port, states, events, actions),
        0 <= k < states.len(),
        states[k] is Spawning || states[k] is AwaitingReady || states[k] is Running,
        !(states[0] is Spawning || states[0] is AwaitingReady || states[0] is Running),
    ensures
        exists|i: int| 0 <= i < k && (#[trigger] actions[i]) is Spawn,
    decreases k,
{
    let prev = states[k - 1];
    if prev is Spawning || prev is AwaitingReady || prev is Running {
        lemma_spawn_reaches(os, arch, root, port, states, events, actions, k - 1);
        let w = choose|i: int| 0 <= i < k - 1 && (#[trigger] actions[i]) is Spawn;
        assert(0 <= w < k && actions[w] is Spawn);
    } else {
        assert(actions[k - 1] is Spawn);
    }
}

/// A run that starts idle and ends running spawned the driver exactly once.
pub proof fn lemma_one_spawn_per_launch(
    os: HostOs,
    arch: HostArch,
    root: Seq<char>,
    port: Seq<char>,
    states: Seq<StateSpec>,
    events: Seq<EventSpec>,
    actions: Seq<ActionSpec>,
)
    requires
        trace_ok(os, arch, root, port, states, events, actions),
        states.len() > 0,
        states[0] is Idle,
        states[states.len() - 1] is Running,
    ensures
        exists|i: int| 0 <= i < actions.len() && (#[trigger] actions[i]) is Spawn,
        forall|i: int, j: int|
            0 <= i < j < actions.len() && (#[trigger] actions[i]) is Spawn ==> !(
            (#[trigger] actions[j]) is Spawn),
{
    lemma_spawn_reaches(os, arch, root, port, states, events, actions, states.len() - 1);
    assert forall|i: int, j: int|
        0 <= i < j < actions.len() && (#[trigger] actions[i]) is Spawn implies !(
    (#[trigger] actions[j]) is Spawn) by {
        lemma_spawn_at_most_once(os, arch, root, port, states, events, actions, i, j);
    }
}

/// One transition's worth of evidence that the stamp on disk holds `v`:
/// either this run ordered `v` written to the stamp file, or the stamp was
/// read and its trimmed contents were `v`.
pub open spec fn stamp_evidence(
    root: Seq<char>,
    events: Seq<EventSpec>,
    actions: Seq<ActionSpec>,
    i: int,
    v: Seq<char>,
) -> bool {
    ||| actions[i] == (ActionSpec::WriteStamp { path: stamp_path_spec(root), version: v })
    ||| (events[i] matches EventSpec::StampRead { contents: Option::Some(c) } && trim_spec(c) == v)
}

/// Once a run that started idle has decided to spawn, the stamp agrees with
/// the version the detector returned: some earlier transition either wrote
/// that version to the stamp file (after a successful fetch) or read a stamp
/// whose trimmed contents already equalled it.
pub proof fn lemma_stamp_agrees_once_spawning(
    os: HostOs,
    arch: HostArch,
    root: Seq<char>,
    port: Seq<char>,
    states: Seq<StateSpec>,
    events: Seq<EventSpec>,
    actions: Seq<ActionSpec>,
    k: int,
    v: Seq<char>,
)
    requires
        trace_ok(os, arch, root, port, states, events, actions),
        states[0] is Idle,
        0 <= k < states.len(),
        states[k] is Spawning || states[k] is AwaitingReady || states[k] is Running,
        state_version(states[k]) == Option::Some(v),
    ensures
        exists|i: int| 0 <= i < k && #[trigger] stamp_evidence(root, events, actions, i, v),
    decreases k,
{
    let prev = states[k - 1];
    if prev is Spawning || prev is AwaitingReady || prev is Running {
        lemma_version_provenance(os, arch, root, port, prev, events[k - 1], states[k],
            actions[k - 1]);
        lemma_stamp_agrees_once_spawning(os, arch, root, port, states, events, actions, k - 1, v);
        let w = choose|i: int|
            0 <= i < k - 1 && #[trigger] stamp_evidence(root, events, actions, i, v);
        assert(0 <= w < k && stamp_evidence(root, events, actions, w, v));
    } else if prev is CacheCheck {
        assert(stamp_evidence(root, events, actions, k - 1, v));
    } else {
        assert(prev is Stamping);
        assert(state_version(prev) == Option::Some(v));
        lemma_stamp_after_extract(os, arch, root, port, states[k - 2], events[k - 2],
            states[k - 1], actions[k - 2]);
        assert(stamp_evidence(root, events, actions, k - 2, v));
    }
}

/// In any run that starts idle, a fetch is immediately preceded by the wipe
/// of the cache root, and a stamp write is immediately preceded by the
/// fetch: the cache is emptied before anything new is written into it, and
/// the stamp lands only after extraction succeeded.
pub proof fn lemma_refresh_order(
    os: HostOs,
    arch: HostArch,
    root: Seq<char>,
    port: Seq<char>,
    states: Seq<StateSpec>,
    events: Seq<EventSpec>,
    actions: Seq<ActionSpec>,
    i: int,
)
    requires
        trace_ok(os, arch, root, port, states, events, actions),
        states.len() > 0,
        states[0] is Idle,
        0 <= i < actions.len(),
    ensures
        actions[i] is Fetch ==> i >= 1 && actions[i - 1] == (ActionSpec::Wipe { root }),
        actions[i] is WriteStamp ==> i >= 1 && actions[i - 1] is Fetch,
{
    if actions[i] is Fetch {
        lemma_wipe_precedes_fetch(os, arch, root, port, states[i], events[i], states[i + 1],
            actions[i]);
        assert(states[i] is Wiping);
        lemma_wipe_precedes_fetch(os, arch, root, port, states[i - 1], events[i - 1], states[i],
            actions[i - 1]);
    }
    if actions[i] is WriteStamp {
        lemma_stamp_after_extract(os, arch, root, port, states[i], events[i], states[i + 1],
            actions[i]);
        assert(states[i] is Fetching);
        lemma_wipe_precedes_fetch(os, arch, root, port, states[i - 1], events[i - 1], states[i],
            actions[i - 1]);
    }
}

} // verus!
