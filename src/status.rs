//! The status record of the supervised process, and its invariant.
use vstd::prelude::*;
use crate::text::decimal;

verus! {

/// Lifecycle state of the supervised process.
#[derive(Debug, Clone, Copy, PartialEq, Eq, Structural)]
pub enum CliState {
    Starting,
    Ready,
    Error,
    Stopped,
}

impl CliState {
    /// The lower-case name under which the state is reported to the host.
    pub fn name(&self) -> (r: &'static str)
        ensures
            r@ == state_name(*self),
    {
        match self {
            CliState::Starting => "starting",
            CliState::Ready => "ready",
            CliState::Error => "error",
            CliState::Stopped => "stopped",
        }
    }
}

/// The lower-case name of a state.
pub open spec fn state_name(s: CliState) -> Seq<char> {
    match s {
        CliState::Starting => "starting"@,
        CliState::Ready => "ready"@,
        CliState::Error => "error"@,
        CliState::Stopped => "stopped"@,
    }
}

/// A snapshot of the supervision state, as handed to the host.
#[derive(Debug, Clone)]
pub struct CliStatus {
    pub state: CliState,
    pub pid: Option<u32>,
    pub port: Option<u16>,
    pub url: Option<String>,
    pub error: Option<String>,
}

/// The mathematical content of a [`CliStatus`].
pub struct StatusView {
    pub state: CliState,
    pub pid: Option<u32>,
    pub port: Option<u16>,
    pub url: Option<Seq<char>>,
    pub error: Option<Seq<char>>,
}

/// The characters of an optional string.
pub open spec fn opt_chars(o: Option<String>) -> Option<Seq<char>> {
    match o {
        Some(s) => Some(s@),
        None => None,
    }
}

impl View for CliStatus {
    type V = StatusView;

    open spec fn view(&self) -> StatusView {
        StatusView {
            state: self.state,
            pid: self.pid,
            port: self.port,
            url: opt_chars(self.url),
            error: opt_chars(self.error),
        }
    }
}

/// The loopback address the server is reached at.
pub open spec fn url_prefix() -> Seq<char> {
    "http://127.0.0.1:"@
}

/// The connection URL of a server listening on `port` of the loopback interface.
pub open spec fn url_for(port: u16) -> Seq<char> {
    url_prefix() + decimal(port as nat)
}

/// The status with every field empty and the given state.
pub open spec fn cleared(state: CliState) -> StatusView {
    StatusView { state, pid: None, port: None, url: None, error: None }
}

impl StatusView {
    /// Port and URL are present exactly when the state is `Ready`, the URL being the
    /// one of the port; an error message, never empty, is present exactly when the
    /// state is `Error`.
    pub open spec fn wf(self) -> bool {
        &&& (self.port is Some <==> self.state == CliState::Ready)
        &&& (self.url is Some <==> self.state == CliState::Ready)
        &&& (self.port is Some ==> self.url == Some(url_for(self.port->0)))
        &&& (self.error is Some <==> self.state == CliState::Error)
        &&& (self.error is Some ==> self.error->0.len() > 0)
    }
}

fn copy_opt_string(o: &Option<String>) -> (r: Option<String>)
    ensures
        opt_chars(r) == opt_chars(*o),
{
    match o {
        Some(s) => Some(s.clone()),
        None => None,
    }
}

impl CliStatus {
    /// The status before any start: `Stopped`, with every other field empty.
    pub fn stopped() -> (r: CliStatus)
        ensures
            r@ == cleared(CliState::Stopped),
    {
        CliStatus { state: CliState::Stopped, pid: None, port: None, url: None, error: None }
    }

    /// A copy of this status with the same content.
    pub fn snapshot(&self) -> (r: CliStatus)
        ensures
            r@ == self@,
    {
        CliStatus {
            state: self.state,
            pid: self.pid,
            port: self.port,
            url: copy_opt_string(&self.url),
            error: copy_opt_string(&self.error),
        }
    }
}

impl Default for CliStatus {
    fn default() -> (r: CliStatus)
        ensures
            r@ == cleared(CliState::Stopped),
    {
        CliStatus::stopped()
    }
}

} // verus!
