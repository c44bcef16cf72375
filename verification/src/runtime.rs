//! The server runtime's coordination logic: two listeners bound to the
//! same host move through a small state machine together, with
//! fail-fast joining and graceful, coordinated shutdown.
//!
//! The loop that performs binding, serving and waiting lives outside
//! the library; it reports what happened as events and obeys the next
//! state this machine hands back.

use vstd::prelude::*;

verus! {

/// The lifecycle phases of one listener.
#[derive(Debug, Clone, Copy, PartialEq, Eq, Structural)]
pub enum ListenerPhase {
    Idle,
    Binding,
    Running,
    ShuttingDown,
    Stopped,
}

/// The two listeners: the asset/UI listener and the API listener.
#[derive(Debug, Clone, Copy, PartialEq, Eq, Structural)]
pub enum ListenerKind {
    Ui,
    Api,
}

/// What the outside loop reports back to the machine.
#[derive(Debug, Clone, Copy, PartialEq, Eq, Structural)]
pub enum RuntimeEvent {
    /// The listener's socket bind succeeded.
    BindOk(ListenerKind),
    /// The listener's socket bind failed.
    BindFailed(ListenerKind),
    /// An external termination signal (interrupt or terminate) arrived.
    SignalReceived,
    /// The listener's in-flight request set drained after it stopped
    /// accepting connections.
    Drained(ListenerKind),
    /// The listener terminated with an error while serving.
    ServeFailed(ListenerKind),
}

/// The joint state of the runtime: one phase per listener, and whether
/// a failure has been recorded as the overall outcome.
#[derive(Debug, Clone, Copy, PartialEq, Eq, Structural)]
pub struct RuntimeState {
    pub ui: ListenerPhase,
    pub api: ListenerPhase,
    pub failed: bool,
}

/// A listener that no longer accepts new connections.
pub open spec fn not_running(p: ListenerPhase) -> bool {
    p is ShuttingDown || p is Stopped
}

/// Once a failure is recorded, neither listener accepts connections.
pub open spec fn failure_latched(s: RuntimeState) -> bool {
    s.failed ==> not_running(s.ui) && not_running(s.api)
}

/// The state before startup.
pub open spec fn spec_runtime_init() -> RuntimeState {
    RuntimeState { ui: ListenerPhase::Idle, api: ListenerPhase::Idle, failed: false }
}

/// Startup: both listeners leave `Idle` and begin binding.
pub open spec fn spec_runtime_start(s: RuntimeState) -> RuntimeState {
    RuntimeState {
        ui: if s.ui is Idle {
            ListenerPhase::Binding
        } else {
            s.ui
        },
        api: if s.api is Idle {
            ListenerPhase::Binding
        } else {
            s.api
        },
        failed: s.failed,
    }
}

/// How a sibling is forced down when the other listener terminates:
/// a running listener drains gracefully; one that never reached
/// `Running` stops outright; one already draining or stopped is left
/// alone.
pub open spec fn spec_demote(p: ListenerPhase) -> ListenerPhase {
    match p {
        ListenerPhase::Running => ListenerPhase::ShuttingDown,
        ListenerPhase::ShuttingDown => ListenerPhase::ShuttingDown,
        _ => ListenerPhase::Stopped,
    }
}

/// One listener's phase within the joint state.
pub open spec fn spec_phase(s: RuntimeState, k: ListenerKind) -> ListenerPhase {
    match k {
        ListenerKind::Ui => s.ui,
        ListenerKind::Api => s.api,
    }
}

/// The joint state with one listener's phase replaced.
pub open spec fn spec_with_phase(s: RuntimeState, k: ListenerKind, p: ListenerPhase) -> RuntimeState {
    match k {
        ListenerKind::Ui => RuntimeState { ui: p, ..s },
        ListenerKind::Api => RuntimeState { api: p, ..s },
    }
}

/// The joint state with the sibling of `k` forced down.
pub open spec fn spec_demote_sibling(s: RuntimeState, k: ListenerKind) -> RuntimeState {
    match k {
        ListenerKind::Ui => RuntimeState { api: spec_demote(s.api), ..s },
        ListenerKind::Api => RuntimeState { ui: spec_demote(s.ui), ..s },
    }
}

/// The transition relation, as a function: what each event does to the
/// joint state.  Binding succeeds only out of `Binding`; a bind
/// failure or a serve failure records the overall failure and forces
/// the sibling down; a termination signal stops both running listeners
/// accepting; draining finishes a shutdown.  Stray events (for a
/// listener in another phase) change nothing.
pub open spec fn spec_runtime_step(s: RuntimeState, e: RuntimeEvent) -> RuntimeState {
    match e {
        RuntimeEvent::BindOk(k) => if spec_phase(s, k) is Binding {
            spec_with_phase(s, k, ListenerPhase::Running)
        } else {
            s
        },
        RuntimeEvent::BindFailed(k) => if spec_phase(s, k) is Binding {
            let s1 = spec_with_phase(s, k, ListenerPhase::Stopped);
            let s2 = spec_demote_sibling(s1, k);
            RuntimeState { failed: true, ..s2 }
        } else {
            s
        },
        RuntimeEvent::SignalReceived => RuntimeState {
            ui: if s.ui is Running {
                ListenerPhase::ShuttingDown
            } else {
                s.ui
            },
            api: if s.api is Running {
                ListenerPhase::ShuttingDown
            } else {
                s.api
            },
            failed: s.failed,
        },
        RuntimeEvent::Drained(k) => if spec_phase(s, k) is ShuttingDown {
            spec_with_phase(s, k, ListenerPhase::Stopped)
        } else {
            s
        },
        RuntimeEvent::ServeFailed(k) => if spec_phase(s, k) is Running || spec_phase(s, k)
            is ShuttingDown {
            let s1 = spec_with_phase(s, k, ListenerPhase::Stopped);
            let s2 = spec_demote_sibling(s1, k);
            RuntimeState { failed: true, ..s2 }
        } else {
            s
        },
    }
}

/// Whether the runtime has come to rest.
pub open spec fn spec_runtime_done(s: RuntimeState) -> bool {
    s.ui is Stopped && s.api is Stopped
}

/// The state before startup.
pub fn runtime_init() -> (s: RuntimeState)
    ensures
        s == spec_runtime_init(),
{
    RuntimeState { ui: ListenerPhase::Idle, api: ListenerPhase::Idle, failed: false }
}

/// Startup: both listeners begin binding.
pub fn runtime_start(s: RuntimeState) -> (r: RuntimeState)
    ensures
        r == spec_runtime_start(s),
{
    RuntimeState {
        ui: if s.ui == ListenerPhase::Idle {
            ListenerPhase::Binding
        } else {
            s.ui
        },
        api: if s.api == ListenerPhase::Idle {
            ListenerPhase::Binding
        } else {
            s.api
        },
        failed: s.failed,
    }
}

fn demote(p: ListenerPhase) -> (r: ListenerPhase)
    ensures
        r == spec_demote(p),
{
    match p {
        ListenerPhase::Running => ListenerPhase::ShuttingDown,
        ListenerPhase::ShuttingDown => ListenerPhase::ShuttingDown,
        _ => ListenerPhase::Stopped,
    }
}

fn with_phase(s: RuntimeState, k: ListenerKind, p: ListenerPhase) -> (r: RuntimeState)
    ensures
        r == spec_with_phase(s, k, p),
{
    match k {
        ListenerKind::Ui => RuntimeState { ui: p, ..s },
        ListenerKind::Api => RuntimeState { api: p, ..s },
    }
}

fn demote_sibling(s: RuntimeState, k: ListenerKind) -> (r: RuntimeState)
    ensures
        r == spec_demote_sibling(s, k),
{
    match k {
        ListenerKind::Ui => RuntimeState { api: demote(s.api), ..s },
        ListenerKind::Api => RuntimeState { ui: demote(s.ui), ..s },
    }
}

fn phase_of(s: RuntimeState, k: ListenerKind) -> (r: ListenerPhase)
    ensures
        r == spec_phase(s, k),
{
    match k {
        ListenerKind::Ui => s.ui,
        ListenerKind::Api => s.api,
    }
}

/// Applies one event to the joint state.
pub fn runtime_step(s: RuntimeState, e: RuntimeEvent) -> (r: RuntimeState)
    ensures
        r == spec_runtime_step(s, e),
{
    match e {
        RuntimeEvent::BindOk(k) => {
            if phase_of(s, k) == ListenerPhase::Binding {
                with_phase(s, k, ListenerPhase::Running)
            } else {
                s
            }
        },
        RuntimeEvent::BindFailed(k) => {
            if phase_of(s, k) == ListenerPhase::Binding {
                let s1 = with_phase(s, k, ListenerPhase::Stopped);
                let s2 = demote_sibling(s1, k);
                RuntimeState { failed: true, ..s2 }
            } else {
                s
            }
        },
        RuntimeEvent::SignalReceived => RuntimeState {
            ui: if s.ui == ListenerPhase::Running {
                ListenerPhase::ShuttingDown
            } else {
                s.ui
            },
            api: if s.api == ListenerPhase::Running {
                ListenerPhase::ShuttingDown
            } else {
                s.api
            },
            failed: s.failed,
        },
        RuntimeEvent::Drained(k) => {
            if phase_of(s, k) == ListenerPhase::ShuttingDown {
                with_phase(s, k, ListenerPhase::Stopped)
            } else {
                s
            }
        },
        RuntimeEvent::ServeFailed(k) => {
            let p = phase_of(s, k);
            if p == ListenerPhase::Running || p == ListenerPhase::ShuttingDown {
                let s1 = with_phase(s, k, ListenerPhase::Stopped);
                let s2 = demote_sibling(s1, k);
                RuntimeState { failed: true, ..s2 }
            } else {
                s
            }
        },
    }
}

/// The overall outcome once the runtime has come to rest: `Err` when a
/// failure was recorded along the way.
pub fn runtime_outcome(s: RuntimeState) -> (r: Option<Result<(), ()>>)
    ensures
        spec_runtime_done(s) ==> r == Some(
            if s.failed {
                Result::<(), ()>::Err(())
            } else {
                Result::<(), ()>::Ok(())
            },
        ),
        !spec_runtime_done(s) ==> r is None,
{
    if s.ui == ListenerPhase::Stopped && s.api == ListenerPhase::Stopped {
        if s.failed {
            Some(Err(()))
        } else {
            Some(Ok(()))
        }
    } else {
        None
    }
}

/// A bind failure of the API listener fails the whole runtime at once:
/// the failure is recorded as the overall outcome and the asset
/// listener stops accepting connections in the same step.
pub proof fn lemma_api_bind_failure_stops_runtime(s: RuntimeState)
    requires
        s.api is Binding,
        failure_latched(s),
    ensures
        ({
            let s1 = spec_runtime_step(s, RuntimeEvent::BindFailed(ListenerKind::Api));
            s1.failed && s1.api is Stopped && not_running(s1.ui) && failure_latched(s1)
        }),
{
}

/// One step keeps a recorded failure recorded, and keeps both
/// listeners out of `Running` once a failure is recorded.
pub proof fn lemma_failure_latched_preserved(s: RuntimeState, e: RuntimeEvent)
    requires
        failure_latched(s),
    ensures
        failure_latched(spec_runtime_step(s, e)),
        s.failed ==> spec_runtime_step(s, e).failed,
{
}

/// The state after a whole sequence of events.
pub open spec fn spec_run_events(s: RuntimeState, es: Seq<RuntimeEvent>) -> RuntimeState
    decreases es.len(),
{
    if es.len() == 0 {
        s
    } else {
        spec_run_events(spec_runtime_step(s, es[0]), es.drop_first())
    }
}

/// A recorded failure is final: whatever events follow, the runtime's
/// result stays a failure and neither listener accepts connections
/// again — in particular, the asset listener is never left running
/// behind a failed result.
pub proof fn lemma_failure_is_final(s: RuntimeState, es: Seq<RuntimeEvent>)
    requires
        s.failed,
        failure_latched(s),
    ensures
        ({
            let t = spec_run_events(s, es);
            t.failed && not_running(t.ui) && not_running(t.api)
        }),
    decreases es.len(),
{
    if es.len() > 0 {
        lemma_failure_latched_preserved(s, es[0]);
        lemma_failure_is_final(spec_runtime_step(s, es[0]), es.drop_first());
    }
}

} // verus!
