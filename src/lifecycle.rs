//! The shutdown lifecycle: what each OS signal does, and when a task stops.

use vstd::prelude::*;

verus! {

/// The state that every long-lived task watches.
#[derive(Debug, Clone, Copy, PartialEq, Eq, Structural)]
pub enum ShutdownSignal {
    /// No shutdown requested: keep running.
    Running,
    /// Stop, letting transports finish what they are sending.
    Graceful,
    /// Stop as soon as the current wait resumes.
    Immediate,
}

impl ShutdownSignal {
    /// The severity of the state: running, graceful, immediate.
    pub open spec fn rank(self) -> nat {
        match self {
            ShutdownSignal::Running => 0,
            ShutdownSignal::Graceful => 1,
            ShutdownSignal::Immediate => 2,
        }
    }

    /// The state after a request: the more severe of the two, so that a
    /// shutdown once begun is never withdrawn or softened.
    pub open spec fn spec_escalate(self, request: ShutdownSignal) -> ShutdownSignal {
        if request.rank() > self.rank() {
            request
        } else {
            self
        }
    }

    pub fn escalate(self, request: ShutdownSignal) -> (r: ShutdownSignal)
        ensures
            r == self.spec_escalate(request),
    {
        match (self, request) {
            (ShutdownSignal::Running, _) => request,
            (ShutdownSignal::Graceful, ShutdownSignal::Immediate) => request,
            _ => self,
        }
    }

    /// Whether a task that observes this state leaves its loop.
    pub fn requests_stop(self) -> (r: bool)
        ensures
            r == (self != ShutdownSignal::Running),
    {
        !matches!(self, ShutdownSignal::Running)
    }
}

/// The OS signals that the lifecycle controller listens to.
#[derive(Debug, Clone, Copy, PartialEq, Eq, Structural)]
pub enum OsSignal {
    /// SIGTERM.
    Terminate,
    /// SIGINT.
    Interrupt,
    /// SIGHUP.
    Hangup,
}

/// What the controller does on one signal.
#[derive(Debug, Clone, Copy, PartialEq, Eq, Structural)]
pub struct SignalResponse {
    /// The shutdown state to publish, if it is to change.
    pub publish: Option<ShutdownSignal>,
    /// Whether to send a correlation reload event.
    pub reload: bool,
    /// Whether the controller keeps listening for signals.
    pub keep_listening: bool,
}

/// SIGTERM asks for a graceful stop and keeps listening; SIGINT asks for an
/// immediate stop and ends the controller; SIGHUP asks for a reload and
/// leaves the shutdown state alone. What is published never lowers the
/// current state.
pub fn respond_to_signal(current: ShutdownSignal, signal: OsSignal) -> (r: SignalResponse)
    ensures
        signal == OsSignal::Terminate ==> r == (SignalResponse {
            publish: Some(current.spec_escalate(ShutdownSignal::Graceful)),
            reload: false,
            keep_listening: true,
        }),
        signal == OsSignal::Interrupt ==> r == (SignalResponse {
            publish: Some(ShutdownSignal::Immediate),
            reload: false,
            keep_listening: false,
        }),
        signal == OsSignal::Hangup ==> r == (SignalResponse {
            publish: None,
            reload: true,
            keep_listening: true,
        }),
{
    match signal {
        OsSignal::Terminate => SignalResponse {
            publish: Some(current.escalate(ShutdownSignal::Graceful)),
            reload: false,
            keep_listening: true,
        },
        OsSignal::Interrupt => SignalResponse {
            publish: Some(current.escalate(ShutdownSignal::Immediate)),
            reload: false,
            keep_listening: false,
        },
        OsSignal::Hangup => SignalResponse { publish: None, reload: true, keep_listening: true },
    }
}

/// The shutdown state after a run of requests, starting from `start`.
pub open spec fn state_after(start: ShutdownSignal, requests: Seq<ShutdownSignal>) -> ShutdownSignal
    decreases requests.len(),
{
    if requests.len() == 0 {
        start
    } else {
        state_after(start, requests.drop_last()).spec_escalate(requests.last())
    }
}

/// The shutdown state is monotonic: along any run of requests it never
/// becomes less severe, and once it has left `Running` it never returns there.
pub proof fn lemma_shutdown_monotonic(start: ShutdownSignal, requests: Seq<ShutdownSignal>, i: int, j: int)
    requires
        0 <= i <= j <= requests.len(),
    ensures
        state_after(start, requests.take(i)).rank() <= state_after(start, requests.take(j)).rank(),
        state_after(start, requests.take(i)) != ShutdownSignal::Running
            ==> state_after(start, requests.take(j)) != ShutdownSignal::Running,
    decreases j - i,
{
    if i < j {
        lemma_shutdown_monotonic(start, requests, i, j - 1);
        assert(requests.take(j).drop_last() =~= requests.take(j - 1));
    }
}

} // verus!
