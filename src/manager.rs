//! The supervisor's state, with one method per event of the state machine.
use vstd::prelude::*;
use crate::model::{
    Event, ManagerView, awaiting, early_exit_message, initial, next_run, spawn_accepted, step,
    timeout_message,
};
use crate::status::{CliState, CliStatus, url_for, url_prefix};
use crate::text::push_decimal;

verus! {

/// The state of the supervisor of one child process. Worker reports name the run
/// they belong to, as returned by [`CliProcessManager::start`].
pub struct CliProcessManager {
    status: CliStatus,
    ready: bool,
    run: u64,
    child: Option<u32>,
}

impl View for CliProcessManager {
    type V = ManagerView;

    closed spec fn view(&self) -> ManagerView {
        ManagerView { status: self.status@, ready: self.ready, run: self.run, child: self.child }
    }
}

/// The connection URL of a server listening on `port` of the loopback interface.
pub fn connection_url(port: u16) -> (r: String)
    ensures
        r@ == url_for(port),
{
    let mut url = String::from_str("http://127.0.0.1:");
    assert(url@ == url_prefix());
    push_decimal(&mut url, port);
    url
}

impl CliProcessManager {
    /// A supervisor with nothing started: `Stopped`, every field empty.
    pub fn new() -> (r: CliProcessManager)
        ensures
            r@ == initial(),
            r@.wf(),
    {
        CliProcessManager { status: CliStatus::stopped(), ready: false, run: 0, child: None }
    }

    /// A snapshot of the status.
    pub fn status(&self) -> (r: CliStatus)
        ensures
            r@ == self@.status,
    {
        self.status.snapshot()
    }

    /// Whether readiness has been declared for the current run.
    pub fn is_ready(&self) -> (r: bool)
        ensures
            r == self@.ready,
    {
        self.ready
    }

    /// The number of the current run.
    pub fn current_run(&self) -> (r: u64)
        ensures
            r == self@.run,
    {
        self.run
    }

    /// Gives up the child, whose pid is returned for termination, and resets the
    /// status to `Stopped` with every other field empty, whether or not a child was
    /// held.
    pub fn stop(&mut self) -> (r: Option<u32>)
        ensures
            r == old(self)@.child,
            final(self)@ == step(old(self)@, Event::Stop),
    {
        let r = self.child;
        self.child = None;
        self.status = CliStatus::stopped();
        r
    }

    /// Begins a new run: gives up any child (returned for termination), clears the
    /// ready flag and every transient field, and sets the state to `Starting`.
    /// Returns the number of the new run and the pid of the child given up.
    pub fn start(&mut self) -> (r: (u64, Option<u32>))
        ensures
            r.0 == final(self)@.run,
            r.0 == next_run(old(self)@.run),
            r.1 == old(self)@.child,
            final(self)@ == step(old(self)@, Event::Start),
    {
        let previous = self.child;
        self.child = None;
        self.ready = false;
        self.run = if self.run == u64::MAX {
            0
        } else {
            self.run + 1
        };
        self.status = CliStatus {
            state: CliState::Starting,
            pid: None,
            port: None,
            url: None,
            error: None,
        };
        (self.run, previous)
    }

    /// Takes the child spawned for `run` into keeping and records its pid, where
    /// that run is current, still starting and holds no child. Returns whether it
    /// did; a child that was not taken is to be terminated by the caller.
    pub fn spawned(&mut self, run: u64, pid: u32) -> (keep: bool)
        ensures
            keep == spawn_accepted(old(self)@, run),
            final(self)@ == step(old(self)@, Event::Spawned { run, pid }),
    {
        if run == self.run && self.status.state == CliState::Starting && !self.ready
            && self.child.is_none() {
            self.child = Some(pid);
            self.status.pid = Some(pid);
            true
        } else {
            false
        }
    }

    /// Records that resolving or spawning the child of `run` failed with `message`,
    /// where that run is current and still starting. Returns whether it did.
    pub fn spawn_failed(&mut self, run: u64, message: String) -> (changed: bool)
        requires
            message@.len() > 0,
        ensures
            changed == awaiting(old(self)@, run),
            final(self)@ == step(old(self)@, Event::SpawnFailed { run, message: message@ }),
    {
        if run == self.run && self.status.state == CliState::Starting && !self.ready {
            self.status.state = CliState::Error;
            self.status.error = Some(message);
            true
        } else {
            false
        }
    }

    /// Declares readiness on `port` for `run`, at most once per run: sets the
    /// ready flag, and the status to `Ready` with the port, its URL and no error.
    /// Returns whether it did.
    pub fn mark_ready(&mut self, run: u64, port: u16) -> (changed: bool)
        ensures
            changed == awaiting(old(self)@, run),
            final(self)@ == step(old(self)@, Event::ReadySignal { run, port }),
    {
        if run == self.run && self.status.state == CliState::Starting && !self.ready {
            self.ready = true;
            let url = connection_url(port);
            self.status = CliStatus {
                state: CliState::Ready,
                pid: self.status.pid,
                port: Some(port),
                url: Some(url),
                error: None,
            };
            true
        } else {
            false
        }
    }

    /// The startup deadline of `run` has passed: where that run is current and not
    /// ready, the status becomes `Error` with the timeout message. Returns whether
    /// it did, in which case the caller kills the child.
    pub fn timed_out(&mut self, run: u64) -> (kill: bool)
        ensures
            kill == awaiting(old(self)@, run),
            final(self)@ == step(old(self)@, Event::Timeout { run }),
    {
        if run == self.run && self.status.state == CliState::Starting && !self.ready {
            self.status.state = CliState::Error;
            self.status.error = Some(String::from_str("CLI did not start in time"));
            true
        } else {
            false
        }
    }

    /// The child of `run` has exited; `detail` describes its exit status where it
    /// was observed. Where the run is current the child is no longer held, and a
    /// run that was ready is `Stopped` with no error, one that was still starting
    /// is `Error` with the early-exit message; an error already recorded stays.
    /// Returns whether the exit was an early failure: one of the current run while
    /// it was not ready and not stopped, to be reported with its error.
    pub fn exited(&mut self, run: u64, detail: Option<String>) -> (failed: bool)
        ensures
            failed == (run == old(self)@.run && (old(self)@.status.state == CliState::Starting
                || old(self)@.status.state == CliState::Error)),
            final(self)@ == step(
                old(self)@,
                Event::Exited {
                    run,
                    detail: match detail {
                        Some(d) => Some(d@),
                        None => None,
                    },
                },
            ),
    {
        if run != self.run {
            return false;
        }
        self.child = None;
        if self.status.state == CliState::Ready {
            self.status.state = CliState::Stopped;
            self.status.port = None;
            self.status.url = None;
            self.status.error = None;
            false
        } else if self.status.state == CliState::Starting {
            let message = match detail {
                Some(d) => {
                    let mut m = String::from_str("CLI exited early: ");
                    m.append(d.as_str());
                    m
                },
                None => String::from_str("CLI exited early"),
            };
            self.status.state = CliState::Error;
            self.status.error = Some(message);
            true
        } else {
            self.status.state == CliState::Error
        }
    }
}

} // verus!
