//! The configuration record read once at startup, and its validity.

use vstd::prelude::*;

verus! {

/// The `api` section of the settings file: the credential sent as a
/// query-string parameter, and the TCP port the backend listens on.
pub struct SettingsApi {
    pub token: String,
    pub port: i32,
}

/// The settings record: `{ api: { token, port }, autostart }`.
pub struct Settings {
    pub api: SettingsApi,
    pub autostart: bool,
}

/// The ways loading the settings record can fail.
pub enum SettingsError {
    /// The settings file does not exist.
    NotFound,
    /// The settings file exists but could not be read.
    Unreadable,
    /// The settings file is not a well-formed settings document.
    Malformed,
    /// The port is not usable for a local HTTP origin.
    InvalidPort,
}

impl Settings {
    /// The record's invariant: the port must be usable for constructing
    /// a local HTTP origin, so it must be a real TCP port number.
    pub open spec fn wf(self) -> bool {
        1 <= self.api.port <= 65535
    }

    /// Builds a settings record from the plain values of a parsed
    /// settings document, rejecting a port that cannot serve as a
    /// local HTTP origin.
    pub fn new(token: String, port: i32, autostart: bool) -> (r: Result<Settings, SettingsError>)
        ensures
            1 <= port <= 65535 <==> r is Ok,
            r matches Ok(s) ==> s.api.token == token && s.api.port == port
                && s.autostart == autostart && s.wf(),
            r matches Err(e) ==> e == SettingsError::InvalidPort,
    {
        if 1 <= port && port <= 65535 {
            Ok(Settings { api: SettingsApi { token, port }, autostart })
        } else {
            Err(SettingsError::InvalidPort)
        }
    }
}

} // verus!
