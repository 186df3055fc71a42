//! The startup readiness handshake as a state machine.
//!
//! Startup is a linear procedure: read the settings, probe the backend's
//! root endpoint, spawn the backend if it answered unsuccessfully, wait a
//! fixed five seconds, probe once more, then probe the authenticated API
//! endpoint. Every decision of that procedure lives here: a phase names
//! what the shell is waiting for, [`next_action`] says what to perform in
//! a phase, and [`step`] consumes the outcome and moves to the next
//! phase. The surrounding process performs the actions (HTTP requests,
//! the spawn, the sleep) and feeds the outcomes back as events; every
//! failure ends in a [`Phase::Failed`] whose action is to exit with code
//! 1 and a diagnostic line.

use vstd::prelude::*;

use crate::settings::Settings;
use crate::settings::SettingsError;
use crate::text::dec_rep;
use crate::text::decimal_string;
use crate::urls::api_url;
use crate::urls::api_url_spec;
use crate::urls::root_url;
use crate::urls::root_url_spec;

verus! {

/// How long the shell waits after spawning the backend before probing it
/// again, in seconds.
pub const STARTUP_WAIT_SECS: u64 = 5;

/// The process exit code of every failed startup.
pub const EXIT_FAILURE: u8 = 1;

/// The outcome of a liveness probe of the backend's root endpoint.
pub enum ProbeResult {
    /// The backend answered with this HTTP status code.
    Response { code: u16 },
    /// No response arrived: the connection itself failed.
    Unreachable,
}

/// The outcome of a readiness probe of the authenticated API endpoint.
pub enum ApiResult {
    /// The backend answered with this status code; on a success status
    /// the body was read for its version field.
    Response { code: u16, version: Option<String> },
    /// No response arrived: the connection itself failed.
    Unreachable,
}

/// An outcome of the action the shell was waiting on.
#[allow(inconsistent_fields)]
pub enum Event {
    SettingsRead { result: Result<Settings, SettingsError> },
    RootProbed { result: ProbeResult },
    Spawned { ok: bool },
    Slept,
    ApiProbed { result: ApiResult },
}

/// Why startup failed. Every failure is fatal: the shell exits with
/// code 1 and prints the failure's diagnostic line.
pub enum Failure {
    /// The settings record could not be loaded.
    Settings { error: SettingsError },
    /// The first liveness probe got no response at all.
    BackendUnreachable,
    /// The backend executable could not be spawned.
    SpawnFailed,
    /// The backend was spawned but still did not answer successfully
    /// after the fixed wait.
    BackendNotStarted,
    /// The readiness probe got no response at all.
    ApiUnreachable,
    /// The authenticated API answered with this non-success status.
    ApiError { code: u16 },
    /// The authenticated API answered successfully but without a
    /// readable version field.
    ApiInvalidBody,
    /// An outcome arrived that the current phase was not waiting for.
    UnexpectedEvent,
}

/// What the shell is currently waiting for.
pub enum Phase {
    /// Waiting for the settings record.
    AwaitSettings,
    /// Waiting for the first liveness probe.
    AwaitFirstProbe { settings: Settings },
    /// Waiting for the backend executable to be spawned.
    AwaitSpawn { settings: Settings },
    /// Waiting out the fixed delay after the spawn.
    AwaitSleep { settings: Settings },
    /// Waiting for the liveness re-probe after the delay.
    AwaitSecondProbe { settings: Settings },
    /// Waiting for the authenticated readiness probe.
    AwaitApiProbe { settings: Settings },
    /// Startup succeeded: the UI can be shown. The backend reported
    /// this version.
    Ready { settings: Settings, version: String },
    /// Startup failed; the shell exits.
    Failed { failure: Failure },
}

/// What the shell must perform in the current phase.
pub enum Action {
    ReadSettings,
    ProbeRoot { url: String },
    SpawnBackend,
    Sleep { secs: u64 },
    ProbeApi { url: String },
    LaunchUi,
    Exit { code: u8, message: String },
}

/// The shape of an action, without its payload; the trace laws count
/// actions by their kind.
pub enum ActionKind {
    ReadSettings,
    ProbeRoot,
    SpawnBackend,
    Sleep,
    ProbeApi,
    LaunchUi,
    Exit,
}

/// Whether an HTTP status code counts as success.
pub open spec fn is_success_code(code: u16) -> bool {
    200 <= code < 300
}

/// Decides whether an HTTP status code counts as success.
pub fn is_success_status(code: u16) -> (r: bool)
    ensures
        r == is_success_code(code),
{
    200 <= code && code < 300
}

impl Phase {
    /// Every settings record a phase carries is valid.
    pub open spec fn wf(self) -> bool {
        match self {
            Phase::AwaitSettings => true,
            Phase::AwaitFirstProbe { settings } => settings.wf(),
            Phase::AwaitSpawn { settings } => settings.wf(),
            Phase::AwaitSleep { settings } => settings.wf(),
            Phase::AwaitSecondProbe { settings } => settings.wf(),
            Phase::AwaitApiProbe { settings } => settings.wf(),
            Phase::Ready { settings, .. } => settings.wf(),
            Phase::Failed { .. } => true,
        }
    }

    /// A terminal phase: the handshake is over.
    pub open spec fn is_terminal(self) -> bool {
        self is Ready || self is Failed
    }

    /// The position of a phase in the handshake's fixed order; every
    /// transition out of a non-terminal phase strictly increases it.
    pub open spec fn rank(self) -> nat {
        match self {
            Phase::AwaitSettings => 0,
            Phase::AwaitFirstProbe { .. } => 1,
            Phase::AwaitSpawn { .. } => 2,
            Phase::AwaitSleep { .. } => 3,
            Phase::AwaitSecondProbe { .. } => 4,
            Phase::AwaitApiProbe { .. } => 5,
            Phase::Ready { .. } => 6,
            Phase::Failed { .. } => 7,
        }
    }
}

impl Event {
    /// Every settings record an event carries is valid.
    pub open spec fn wf(self) -> bool {
        match self {
            Event::SettingsRead { result } => result matches Ok(s) ==> s.wf(),
            _ => true,
        }
    }
}

/// The kind of action pending in a phase.
pub open spec fn kind_of(p: Phase) -> ActionKind {
    match p {
        Phase::AwaitSettings => ActionKind::ReadSettings,
        Phase::AwaitFirstProbe { .. } => ActionKind::ProbeRoot,
        Phase::AwaitSpawn { .. } => ActionKind::SpawnBackend,
        Phase::AwaitSleep { .. } => ActionKind::Sleep,
        Phase::AwaitSecondProbe { .. } => ActionKind::ProbeRoot,
        Phase::AwaitApiProbe { .. } => ActionKind::ProbeApi,
        Phase::Ready { .. } => ActionKind::LaunchUi,
        Phase::Failed { .. } => ActionKind::Exit,
    }
}

/// The handshake's transition function. Terminal phases absorb every
/// event; an event that the phase is not waiting for fails the startup.
pub open spec fn spec_step(s: Phase, e: Event) -> Phase {
    match (s, e) {
        (Phase::AwaitSettings, Event::SettingsRead { result }) => match result {
            Ok(settings) => Phase::AwaitFirstProbe { settings },
            Err(error) => Phase::Failed { failure: Failure::Settings { error } },
        },
        (Phase::AwaitFirstProbe { settings }, Event::RootProbed { result }) => match result {
            ProbeResult::Response { code } => if is_success_code(code) {
                Phase::AwaitApiProbe { settings }
            } else {
                Phase::AwaitSpawn { settings }
            },
            ProbeResult::Unreachable => Phase::Failed { failure: Failure::BackendUnreachable },
        },
        (Phase::AwaitSpawn { settings }, Event::Spawned { ok }) => if ok {
            Phase::AwaitSleep { settings }
        } else {
            Phase::Failed { failure: Failure::SpawnFailed }
        },
        (Phase::AwaitSleep { settings }, Event::Slept) => Phase::AwaitSecondProbe { settings },
        (Phase::AwaitSecondProbe { settings }, Event::RootProbed { result }) => match result {
            ProbeResult::Response { code } => if is_success_code(code) {
                Phase::AwaitApiProbe { settings }
            } else {
                Phase::Failed { failure: Failure::BackendNotStarted }
            },
            ProbeResult::Unreachable => Phase::Failed { failure: Failure::BackendNotStarted },
        },
        (Phase::AwaitApiProbe { settings }, Event::ApiProbed { result }) => match result {
            ApiResult::Response { code, version } => if !is_success_code(code) {
                Phase::Failed { failure: Failure::ApiError { code } }
            } else {
                match version {
                    Some(version) => Phase::Ready { settings, version },
                    None => Phase::Failed { failure: Failure::ApiInvalidBody },
                }
            },
            ApiResult::Unreachable => Phase::Failed { failure: Failure::ApiUnreachable },
        },
        (Phase::Ready { settings, version }, _) => Phase::Ready { settings, version },
        (Phase::Failed { failure }, _) => Phase::Failed { failure },
        (_, _) => Phase::Failed { failure: Failure::UnexpectedEvent },
    }
}

/// Consumes the outcome of the pending action and moves the handshake
/// to its next phase, exactly as the transition function says.
pub fn step(state: Phase, event: Event) -> (next: Phase)
    ensures
        next == spec_step(state, event),
        state.wf() && event.wf() ==> next.wf(),
{
    match (state, event) {
        (Phase::AwaitSettings, Event::SettingsRead { result }) => match result {
            Ok(settings) => Phase::AwaitFirstProbe { settings },
            Err(error) => Phase::Failed { failure: Failure::Settings { error } },
        },
        (Phase::AwaitFirstProbe { settings }, Event::RootProbed { result }) => match result {
            ProbeResult::Response { code } => if is_success_status(code) {
                Phase::AwaitApiProbe { settings }
            } else {
                Phase::AwaitSpawn { settings }
            },
            ProbeResult::Unreachable => Phase::Failed { failure: Failure::BackendUnreachable },
        },
        (Phase::AwaitSpawn { settings }, Event::Spawned { ok }) => if ok {
            Phase::AwaitSleep { settings }
        } else {
            Phase::Failed { failure: Failure::SpawnFailed }
        },
        (Phase::AwaitSleep { settings }, Event::Slept) => Phase::AwaitSecondProbe { settings },
        (Phase::AwaitSecondProbe { settings }, Event::RootProbed { result }) => match result {
            ProbeResult::Response { code } => if is_success_status(code) {
                Phase::AwaitApiProbe { settings }
            } else {
                Phase::Failed { failure: Failure::BackendNotStarted }
            },
            ProbeResult::Unreachable => Phase::Failed { failure: Failure::BackendNotStarted },
        },
        (Phase::AwaitApiProbe { settings }, Event::ApiProbed { result }) => match result {
            ApiResult::Response { code, version } => if !is_success_status(code) {
                Phase::Failed { failure: Failure::ApiError { code } }
            } else {
                match version {
                    Some(version) => Phase::Ready { settings, version },
                    None => Phase::Failed { failure: Failure::ApiInvalidBody },
                }
            },
            ApiResult::Unreachable => Phase::Failed { failure: Failure::ApiUnreachable },
        },
        (Phase::Ready { settings, version }, _) => Phase::Ready { settings, version },
        (Phase::Failed { failure }, _) => Phase::Failed { failure },
        (_, _) => Phase::Failed { failure: Failure::UnexpectedEvent },
    }
}

/// The diagnostic line printed for a failure.
pub open spec fn diagnostic_spec(f: Failure) -> Seq<char> {
    match f {
        Failure::Settings { error } => match error {
            SettingsError::NotFound => "Settings file not found"@,
            SettingsError::Unreadable => "Settings file could not be read"@,
            SettingsError::Malformed => "Settings file is not a valid settings document"@,
            SettingsError::InvalidPort => "Settings file has an invalid API port"@,
        },
        Failure::BackendUnreachable => "Backend is not running"@,
        Failure::SpawnFailed => "Failed to start the backend server"@,
        Failure::BackendNotStarted => "Failed to start the backend server"@,
        Failure::ApiUnreachable => "Backend API is not running"@,
        Failure::ApiError { code } => "Backend server returned an error: "@ + dec_rep(code as nat),
        Failure::ApiInvalidBody => "Backend API is not running"@,
        Failure::UnexpectedEvent => "Unexpected startup event"@,
    }
}

/// Renders the diagnostic line for a failure. The line for a non-success
/// API status carries that exact status code in decimal.
pub fn diagnostic(failure: &Failure) -> (m: String)
    ensures
        m@ == diagnostic_spec(*failure),
{
    match failure {
        Failure::Settings { error } => match error {
            SettingsError::NotFound => String::from_str("Settings file not found"),
            SettingsError::Unreadable => String::from_str("Settings file could not be read"),
            SettingsError::Malformed => String::from_str(
                "Settings file is not a valid settings document",
            ),
            SettingsError::InvalidPort => String::from_str("Settings file has an invalid API port"),
        },
        Failure::BackendUnreachable => String::from_str("Backend is not running"),
        Failure::SpawnFailed => String::from_str("Failed to start the backend server"),
        Failure::BackendNotStarted => String::from_str("Failed to start the backend server"),
        Failure::ApiUnreachable => String::from_str("Backend API is not running"),
        Failure::ApiError { code } => {
            let mut m = String::from_str("Backend server returned an error: ");
            let c = decimal_string(*code as u32);
            m.append(c.as_str());
            m
        },
        Failure::ApiInvalidBody => String::from_str("Backend API is not running"),
        Failure::UnexpectedEvent => String::from_str("Unexpected startup event"),
    }
}

/// The action pending in a phase: what the shell performs next, with the
/// exact URL of each probe and the exact exit code and diagnostic of a
/// failure.
pub fn next_action(p: &Phase) -> (a: Action)
    requires
        p.wf(),
    ensures
        p is AwaitSettings ==> a is ReadSettings,
        p matches Phase::AwaitFirstProbe { settings } ==> a matches Action::ProbeRoot { url }
            && url@ == root_url_spec(settings.api.port as nat),
        p is AwaitSpawn ==> a is SpawnBackend,
        p is AwaitSleep ==> (a matches Action::Sleep { secs } && secs == STARTUP_WAIT_SECS),
        p matches Phase::AwaitSecondProbe { settings } ==> a matches Action::ProbeRoot { url }
            && url@ == root_url_spec(settings.api.port as nat),
        p matches Phase::AwaitApiProbe { settings } ==> a matches Action::ProbeApi { url }
            && url@ == api_url_spec(settings.api.port as nat, settings.api.token@),
        p is Ready ==> a is LaunchUi,
        p matches Phase::Failed { failure } ==> (a matches Action::Exit { code, message }
            && code == EXIT_FAILURE && message@ == diagnostic_spec(*failure)),
{
    match p {
        Phase::AwaitSettings => Action::ReadSettings,
        Phase::AwaitFirstProbe { settings } => Action::ProbeRoot { url: root_url(settings) },
        Phase::AwaitSpawn { .. } => Action::SpawnBackend,
        Phase::AwaitSleep { .. } => Action::Sleep { secs: STARTUP_WAIT_SECS },
        Phase::AwaitSecondProbe { settings } => Action::ProbeRoot { url: root_url(settings) },
        Phase::AwaitApiProbe { settings } => Action::ProbeApi { url: api_url(settings) },
        Phase::Ready { .. } => Action::LaunchUi,
        Phase::Failed { failure } => Action::Exit {
            code: EXIT_FAILURE,
            message: diagnostic(failure),
        },
    }
}

} // verus!
