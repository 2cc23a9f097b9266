//! The supervision state machine, stated over views: one step per event.
use vstd::prelude::*;
use crate::status::{CliState, StatusView, cleared, url_for};

verus! {

/// What the supervisor knows: the status record, the one-shot ready flag of the
/// current run, the number of the current run, and the process id of the child it
/// holds, if any.
pub struct ManagerView {
    pub status: StatusView,
    pub ready: bool,
    pub run: u64,
    pub child: Option<u32>,
}

/// The events that move the supervisor. Those that workers report carry the
/// number of the run they belong to; a report from an earlier run changes nothing.
pub enum Event {
    Start,
    Stop,
    Spawned { run: u64, pid: u32 },
    SpawnFailed { run: u64, message: Seq<char> },
    ReadySignal { run: u64, port: u16 },
    Timeout { run: u64 },
    Exited { run: u64, detail: Option<Seq<char>> },
}

/// The supervisor as created: nothing started, nothing held.
pub open spec fn initial() -> ManagerView {
    ManagerView { status: cleared(CliState::Stopped), ready: false, run: 0, child: None }
}

/// The number of the run after `run`.
pub open spec fn next_run(run: u64) -> u64 {
    if run == u64::MAX {
        0
    } else {
        (run + 1) as u64
    }
}

/// The error recorded when no readiness signal came within the deadline.
pub open spec fn timeout_message() -> Seq<char> {
    "CLI did not start in time"@
}

/// The error recorded when the child exited before it was ready; `detail`
/// describes its exit status where one was observed.
pub open spec fn early_exit_message(detail: Option<Seq<char>>) -> Seq<char> {
    match detail {
        Some(d) => "CLI exited early: "@ + d,
        None => "CLI exited early"@,
    }
}

/// Whether `run` is the current run and it is still waiting for readiness.
pub open spec fn awaiting(v: ManagerView, run: u64) -> bool {
    run == v.run && v.status.state == CliState::Starting && !v.ready
}

/// Whether a child spawned for `run` is taken into the supervisor's keeping.
pub open spec fn spawn_accepted(v: ManagerView, run: u64) -> bool {
    awaiting(v, run) && v.child is None
}

/// The state after one event.
pub open spec fn step(v: ManagerView, e: Event) -> ManagerView {
    match e {
        Event::Start => ManagerView {
            status: cleared(CliState::Starting),
            ready: false,
            run: next_run(v.run),
            child: None,
        },
        Event::Stop => ManagerView { status: cleared(CliState::Stopped), child: None, ..v },
        Event::Spawned { run, pid } => {
            if spawn_accepted(v, run) {
                ManagerView {
                    status: StatusView { pid: Some(pid), ..v.status },
                    child: Some(pid),
                    ..v
                }
            } else {
                v
            }
        },
        Event::SpawnFailed { run, message } => {
            if awaiting(v, run) && message.len() > 0 {
                ManagerView {
                    status: StatusView {
                        state: CliState::Error,
                        error: Some(message),
                        ..v.status
                    },
                    ..v
                }
            } else {
                v
            }
        },
        Event::ReadySignal { run, port } => {
            if awaiting(v, run) {
                ManagerView {
                    status: StatusView {
                        state: CliState::Ready,
                        pid: v.status.pid,
                        port: Some(port),
                        url: Some(url_for(port)),
                        error: None,
                    },
                    ready: true,
                    ..v
                }
            } else {
                v
            }
        },
        Event::Timeout { run } => {
            if awaiting(v, run) {
                ManagerView {
                    status: StatusView {
                        state: CliState::Error,
                        error: Some(timeout_message()),
                        ..v.status
                    },
                    ..v
                }
            } else {
                v
            }
        },
        Event::Exited { run, detail } => {
            if run != v.run {
                v
            } else if v.status.state == CliState::Ready {
                ManagerView {
                    status: StatusView { pid: v.status.pid, ..cleared(CliState::Stopped) },
                    child: None,
                    ..v
                }
            } else if v.status.state == CliState::Starting {
                ManagerView {
                    status: StatusView {
                        state: CliState::Error,
                        error: Some(early_exit_message(detail)),
                        ..v.status
                    },
                    child: None,
                    ..v
                }
            } else {
                ManagerView { child: None, ..v }
            }
        },
    }
}

/// The state after a sequence of events, in order.
pub open spec fn run_events(v: ManagerView, es: Seq<Event>) -> ManagerView
    decreases es.len(),
{
    if es.len() == 0 {
        v
    } else {
        run_events(step(v, es[0]), es.drop_first())
    }
}

impl ManagerView {
    /// The status invariant holds; a child that is held is the one whose pid the
    /// status reports, and none is held once stopped; the ready flag is set exactly
    /// when the run has left `Starting` through readiness, never while starting.
    pub open spec fn wf(self) -> bool {
        &&& self.status.wf()
        &&& (self.child is Some ==> self.status.pid == self.child)
        &&& (self.status.state == CliState::Stopped ==> self.child is None)
        &&& (self.ready ==> self.status.state != CliState::Starting)
        &&& (self.status.state == CliState::Ready ==> self.ready)
    }
}

/// Every event keeps the invariant.
pub proof fn lemma_step_wf(v: ManagerView, e: Event)
    requires
        v.wf(),
    ensures
        step(v, e).wf(),
{
    reveal_strlit("CLI did not start in time");
    reveal_strlit("CLI exited early");
    match e {
        Event::Exited { run, detail } => {
            match detail {
                Some(d) => {
                    reveal_strlit("CLI exited early: ");
                },
                None => {},
            }
        },
        _ => {},
    }
}

/// Every state reached from the initial one by any sequence of events keeps the
/// invariant.
pub proof fn lemma_reachable_wf(es: Seq<Event>)
    ensures
        run_events(initial(), es).wf(),
{
    lemma_run_events_wf(initial(), es);
}

/// Any sequence of events keeps the invariant.
pub proof fn lemma_run_events_wf(v: ManagerView, es: Seq<Event>)
    requires
        v.wf(),
    ensures
        run_events(v, es).wf(),
    decreases es.len(),
{
    if es.len() > 0 {
        lemma_step_wf(v, es[0]);
        lemma_run_events_wf(step(v, es[0]), es.drop_first());
    }
}

/// In every reachable state the port and the URL are present exactly when the state
/// is `Ready`, and an error exactly when it is `Error`.
pub proof fn lemma_port_url_iff_ready(es: Seq<Event>)
    ensures
        ({
            let v = run_events(initial(), es);
            &&& (v.status.port is Some <==> v.status.state == CliState::Ready)
            &&& (v.status.url is Some <==> v.status.state == CliState::Ready)
            &&& (v.status.error is Some <==> v.status.state == CliState::Error)
        }),
{
    lemma_reachable_wf(es);
}

/// At most one child at a time: an event either keeps the child held, lets it go,
/// or takes one where none was held; a start or a stop lets any held child go (it
/// is handed back for termination).
pub proof fn lemma_one_child(v: ManagerView, e: Event)
    requires
        v.wf(),
    ensures
        step(v, e).child == v.child || step(v, e).child is None || v.child is None,
        (e is Start || e is Stop) ==> step(v, e).child is None,
{
}

/// When the deadline of a run that is still starting passes, the state becomes
/// `Error` with the timeout message and the child is to be killed; once its exit
/// is reported, no child is held and the timeout error stays.
pub proof fn lemma_timeout_errors(v: ManagerView, detail: Option<Seq<char>>)
    requires
        v.wf(),
        v.status.state == CliState::Starting,
    ensures
        awaiting(v, v.run),
        step(v, Event::Timeout { run: v.run }).status.state == CliState::Error,
        step(v, Event::Timeout { run: v.run }).status.error == Some(timeout_message()),
        ({
            let after = step(step(v, Event::Timeout { run: v.run }), Event::Exited { run: v.run, detail });
            &&& after.child is None
            &&& after.status.state == CliState::Error
            &&& after.status.error == Some(timeout_message())
        }),
{
}

/// A child that exits before readiness leaves the state `Error` with the early-exit
/// message, and no child held.
pub proof fn lemma_early_exit_errors(v: ManagerView, detail: Option<Seq<char>>)
    requires
        v.wf(),
        v.status.state == CliState::Starting,
    ensures
        step(v, Event::Exited { run: v.run, detail }).status.state == CliState::Error,
        step(v, Event::Exited { run: v.run, detail }).status.error == Some(early_exit_message(detail)),
        step(v, Event::Exited { run: v.run, detail }).child is None,
{
}

/// A child that exits after readiness leaves the state `Stopped` with no error,
/// port or URL, and no child held.
pub proof fn lemma_exit_after_ready_stops(v: ManagerView, detail: Option<Seq<char>>)
    requires
        v.wf(),
        v.status.state == CliState::Ready,
    ensures
        step(v, Event::Exited { run: v.run, detail }).status.state == CliState::Stopped,
        step(v, Event::Exited { run: v.run, detail }).status.error is None,
        step(v, Event::Exited { run: v.run, detail }).status.port is None,
        step(v, Event::Exited { run: v.run, detail }).status.url is None,
        step(v, Event::Exited { run: v.run, detail }).child is None,
{
}

/// Stopping is idempotent: a second stop changes nothing, and a stop with no child
/// held leaves `Stopped` with every transient field empty.
pub proof fn lemma_stop_idempotent(v: ManagerView)
    ensures
        step(step(v, Event::Stop), Event::Stop) == step(v, Event::Stop),
        step(v, Event::Stop).status == cleared(CliState::Stopped),
        step(v, Event::Stop).child is None,
{
}

/// Whether an event is reported by a worker rather than asked for by the host.
pub open spec fn is_report(e: Event) -> bool {
    !(e is Start) && !(e is Stop)
}

proof fn lemma_reports_keep_run(v: ManagerView, es: Seq<Event>)
    requires
        v.wf(),
        v.status.state == CliState::Stopped ==> v.ready && v.child is None,
        forall|i: int| 0 <= i < es.len() ==> is_report(#[trigger] es[i]),
    ensures
        run_events(v, es).wf(),
        run_events(v, es).run == v.run,
        run_events(v, es).status.state == CliState::Stopped ==> run_events(v, es).ready
            && run_events(v, es).child is None,
    decreases es.len(),
{
    if es.len() > 0 {
        lemma_step_wf(v, es[0]);
        assert(is_report(es[0]));
        assert forall|i: int| 0 <= i < es.drop_first().len() implies is_report(
            #[trigger] es.drop_first()[i],
        ) by {
            assert(es.drop_first()[i] == es[i + 1]);
        }
        lemma_reports_keep_run(step(v, es[0]), es.drop_first());
    }
}

/// A start always settles: whatever workers report afterwards, the run is never
/// `Stopped` while a child is held, only after it was ready; and once its deadline
/// passes it is no longer `Starting`, so it ends `Ready` or `Error` unless a ready
/// child has since exited.
pub proof fn lemma_restart_settles(v: ManagerView, es: Seq<Event>)
    requires
        v.wf(),
        forall|i: int| 0 <= i < es.len() ==> is_report(#[trigger] es[i]),
    ensures
        ({
            let s = step(v, Event::Start);
            let w = run_events(s, es);
            let t = step(w, Event::Timeout { run: s.run });
            &&& s.status.state == CliState::Starting
            &&& (w.status.state == CliState::Stopped ==> w.ready && w.child is None)
            &&& t.status.state != CliState::Starting
            &&& (t.status.state == CliState::Stopped ==> t.ready && t.child is None)
        }),
{
    lemma_step_wf(v, Event::Start);
    lemma_reports_keep_run(step(v, Event::Start), es);
}

} // verus!
