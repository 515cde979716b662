//! The run-to-completion sequence of a single server run.
//!
//! A run is single-use: `Bound` when the server is constructed around an
//! already-bound listener, `Serving` once `serve` hands the listener to the
//! accept loop, `Draining` when an armed shutdown signal fires, and
//! `Terminated` when the run is over. No transition returns to an earlier
//! phase.

use vstd::prelude::*;

use crate::url::BoundAddr;

verus! {

/// `std::io::Error` is carried opaquely through the error taxonomy: the
/// accept loop's and the local-address query's failures are wrapped, never
/// inspected.
#[verifier::external_type_specification]
#[verifier::external_body]
pub struct ExIoError(std::io::Error);

/// An error that can occur when trying to serve the application.
#[derive(Debug)]
pub enum ServeError {
    /// The accept loop failed with an I/O error. Fatal; never retried here.
    Io(std::io::Error),
    /// The local address of the listener could not be read.
    LocalAddr(std::io::Error),
}

/// An error that can occur when instantiating a new server with auto-reload
/// features.
#[derive(Debug)]
pub enum NewWithAutoReloadError {
    /// The listener-provisioning collaborator failed to produce a TCP
    /// listener; carries the collaborator's message.
    GetTcpListener(String),
}

impl NewWithAutoReloadError {
    /// The text `message` renders.
    pub open spec fn message_spec(&self) -> Seq<char> {
        match self {
            NewWithAutoReloadError::GetTcpListener(m) => "failed to get a TCP listener: "@ + m@,
        }
    }

    /// Render the error as text.
    pub fn message(&self) -> (r: String)
        ensures
            r@ == self.message_spec(),
    {
        match self {
            NewWithAutoReloadError::GetTcpListener(m) => {
                let mut s = String::new();
                s.append("failed to get a TCP listener: ");
                s.append(m.as_str());
                proof {
                    assert(s@ =~= self.message_spec());
                }
                s
            },
        }
    }
}

/// The first decision of `serve`: a failure to read the listener's bound
/// local address is terminal and surfaces as `ServeError::LocalAddr`.
pub fn check_local_addr(local_addr: Result<BoundAddr, std::io::Error>) -> (r: Result<
    BoundAddr,
    ServeError,
>)
    ensures
        local_addr matches Ok(a) ==> r matches Ok(b) && b == a,
        local_addr matches Err(e) ==> r matches Err(se) && se == ServeError::LocalAddr(e),
{
    match local_addr {
        Ok(a) => Ok(a),
        Err(e) => Err(ServeError::LocalAddr(e)),
    }
}

/// The last decision of `serve`: the accept loop's outcome as the caller
/// sees it. An I/O failure surfaces as `ServeError::Io` and is not retried;
/// a clean end (only possible after a graceful drain) is `Ok`.
pub fn serve_outcome(outcome: Result<(), std::io::Error>) -> (r: Result<(), ServeError>)
    ensures
        r is Ok <==> outcome is Ok,
        outcome matches Err(e) ==> r matches Err(se) && se == ServeError::Io(e),
{
    match outcome {
        Ok(()) => Ok(()),
        Err(e) => Err(ServeError::Io(e)),
    }
}

/// The phase of a single server run.
#[derive(Debug, Clone, Copy, PartialEq, Eq, Structural)]
pub enum RunPhase {
    /// The listener is bound; `serve` has not been called.
    Bound,
    /// The accept loop is running and accepting new connections.
    Serving,
    /// The shutdown signal fired: no new connection is accepted, in-flight
    /// ones are allowed to finish.
    Draining,
    /// The run is over; `ok` says whether it ended cleanly.
    Terminated {
        /// Whether the run ended cleanly (graceful drain) rather than on an
        /// accept-loop failure.
        ok: bool,
    },
}

/// An observable event during a server run.
#[derive(Debug, Clone, Copy, PartialEq, Eq, Structural)]
pub enum RunEvent {
    /// `serve` was invoked, moving the listener into the accept loop.
    ServeCalled,
    /// The armed shutdown signal resolved.
    ShutdownSignal,
    /// The accept loop failed with an I/O error.
    AcceptError,
    /// Every connection accepted before the shutdown signal finished.
    Drained,
}

/// One server run: its phase, and whether a shutdown signal is armed.
#[derive(Debug, Clone, Copy, PartialEq, Eq, Structural)]
pub struct Run {
    /// Where the run stands.
    pub phase: RunPhase,
    /// Whether a graceful-shutdown signal was registered.
    pub shutdown_armed: bool,
}

impl Run {
    /// Whether the run accepts new connections in this phase.
    pub open spec fn accepts_new(self) -> bool {
        self.phase is Serving
    }

    /// Whether the shutdown signal has fired, or the run is over.
    pub open spec fn shutting_down(self) -> bool {
        self.phase is Draining || self.phase is Terminated
    }

    /// The phase after `event`. An event that cannot occur in the current
    /// phase — and the shutdown signal, when none is armed — changes
    /// nothing.
    pub open spec fn spec_step(self, event: RunEvent) -> Run {
        match (self.phase, event) {
            (RunPhase::Bound, RunEvent::ServeCalled) => Run {
                phase: RunPhase::Serving,
                shutdown_armed: self.shutdown_armed,
            },
            (RunPhase::Serving, RunEvent::ShutdownSignal) => if self.shutdown_armed {
                Run { phase: RunPhase::Draining, shutdown_armed: self.shutdown_armed }
            } else {
                self
            },
            (RunPhase::Serving, RunEvent::AcceptError) => Run {
                phase: RunPhase::Terminated { ok: false },
                shutdown_armed: self.shutdown_armed,
            },
            (RunPhase::Draining, RunEvent::Drained) => Run {
                phase: RunPhase::Terminated { ok: true },
                shutdown_armed: self.shutdown_armed,
            },
            (RunPhase::Draining, RunEvent::AcceptError) => Run {
                phase: RunPhase::Terminated { ok: false },
                shutdown_armed: self.shutdown_armed,
            },
            _ => self,
        }
    }

    /// A run for a freshly constructed server: the caller has already bound
    /// the listener.
    pub fn new(shutdown_armed: bool) -> (r: Run)
        ensures
            r.phase is Bound,
            r.shutdown_armed == shutdown_armed,
    {
        Run { phase: RunPhase::Bound, shutdown_armed }
    }

    /// Record `event`.
    pub fn step(&mut self, event: RunEvent)
        ensures
            *final(self) == old(self).spec_step(event),
    {
        let next = match (self.phase, event) {
            (RunPhase::Bound, RunEvent::ServeCalled) => RunPhase::Serving,
            (RunPhase::Serving, RunEvent::ShutdownSignal) => if self.shutdown_armed {
                RunPhase::Draining
            } else {
                self.phase
            },
            (RunPhase::Serving, RunEvent::AcceptError) => RunPhase::Terminated { ok: false },
            (RunPhase::Draining, RunEvent::Drained) => RunPhase::Terminated { ok: true },
            (RunPhase::Draining, RunEvent::AcceptError) => RunPhase::Terminated { ok: false },
            _ => self.phase,
        };
        self.phase = next;
    }
}

/// The run after a sequence of events.
pub open spec fn run_trace(r: Run, events: Seq<RunEvent>) -> Run
    decreases events.len(),
{
    if events.len() == 0 {
        r
    } else {
        run_trace(r.spec_step(events[0]), events.drop_first())
    }
}

/// With no shutdown signal armed, a run never drains and never terminates
/// cleanly: whatever events occur, `serve` can only end on an accept-loop
/// failure.
pub proof fn lemma_unarmed_run_never_ends_ok(r: Run, events: Seq<RunEvent>)
    requires
        !r.shutdown_armed,
        !(r.phase is Draining),
        !(r.phase matches RunPhase::Terminated { ok: true }),
    ensures
        !(run_trace(r, events).phase is Draining),
        !(run_trace(r, events).phase matches RunPhase::Terminated { ok: true }),
    decreases events.len(),
{
    if events.len() > 0 {
        lemma_unarmed_run_never_ends_ok(r.spec_step(events[0]), events.drop_first());
    }
}

/// Shutting down is final: no later event brings the run back to a phase
/// that accepts new connections.
pub proof fn lemma_shutdown_is_final(r: Run, events: Seq<RunEvent>)
    requires
        r.shutting_down(),
    ensures
        run_trace(r, events).shutting_down(),
        !run_trace(r, events).accepts_new(),
    decreases events.len(),
{
    if events.len() > 0 {
        lemma_shutdown_is_final(r.spec_step(events[0]), events.drop_first());
    }
}

/// A run is single-use: once `serve` has moved it out of `Bound`, no event
/// sequence brings it back, so the configuration consumed by `serve` is
/// never picked up again.
pub proof fn lemma_run_is_single_use(r: Run, events: Seq<RunEvent>)
    requires
        !(r.phase is Bound),
    ensures
        !(run_trace(r, events).phase is Bound),
    decreases events.len(),
{
    if events.len() > 0 {
        lemma_run_is_single_use(r.spec_step(events[0]), events.drop_first());
    }
}

/// Once the shutdown signal has fired, no connection is accepted at any
/// later point of the run: every state reached afterwards, not only the
/// last, refuses new connections.
pub proof fn lemma_no_accept_after_shutdown(r: Run, events: Seq<RunEvent>, i: int)
    requires
        r.shutting_down(),
        0 <= i <= events.len(),
    ensures
        !run_trace(r, events.take(i)).accepts_new(),
{
    lemma_shutdown_is_final(r, events.take(i));
}

} // verus!
