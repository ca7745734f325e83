//! The server as a transition system over plain mathematical values.
//!
//! A run alternates between the server and a driver. The server is in one
//! [`Phase`] at a time, and each phase has one pending [`Action`]: the outside
//! work that it waits for. The driver performs the pending action and reports
//! the outcome as an [`Event`]; the event moves the server to its next phase.
//! An event that does not answer the pending action changes nothing.

use crate::error::ErrorKindView;
use crate::error::ErrorView;
use crate::http::RequestView;
use crate::http::ResponseView;
use crate::signal::Ready;
use crate::signal::ShutdownPoll;
use crate::text::occurs_between;
use crate::text::occurs_in;
use vstd::prelude::*;

verus! {

/// How long one attempt to receive a connection may wait, in milliseconds.
pub const RECV_TIMEOUT_MILLIS: u64 = 100;

/// How long the server rests after an attempt that received nothing, in
/// milliseconds.
pub const RECV_SLEEP_MILLIS: u64 = 10;

/// The line announced once the listen address is bound.
pub open spec fn startup_line(listen_address: Seq<char>) -> Seq<char> {
    "Listening at http://"@ + listen_address
        + " (and will reply to all HTTP requests with empty body, OK 200)"@
}

/// The startup line names the address that the server listens on.
pub proof fn startup_line_names_address(listen_address: Seq<char>)
    ensures
        occurs_in(listen_address, startup_line(listen_address)),
{
    occurs_between(
        "Listening at http://"@,
        listen_address,
        " (and will reply to all HTTP requests with empty body, OK 200)"@,
    );
}

/// The line reported when the shutdown source is found disconnected.
pub open spec fn disconnect_notice() -> Seq<char> {
    "termination channel receive failure"@
}

/// What a run is configured with. It never changes during the run.
pub struct Config {
    /// The address to bind, in its textual form.
    pub listen_address: Seq<char>,
    /// Whether each access is logged.
    pub log_accesses: bool,
    /// Whether somebody waits to be told that the server is ready.
    pub ready_sender: bool,
    /// Whether there is a source of shutdown requests to consult.
    pub shutdown_receiver: bool,
}

/// Where a run stands.
pub enum Phase {
    /// The listen address is being bound.
    Binding,
    /// The address is bound; the startup line is being announced.
    Announcing,
    /// The readiness signal is being sent.
    Signalling,
    /// The shutdown source is being consulted.
    Polling,
    /// The shutdown source was found disconnected; the notice is being
    /// reported.
    Diagnosing,
    /// A connection is being awaited, for a bounded time.
    Accepting,
    /// No connection arrived; the server rests briefly.
    Sleeping,
    /// A request arrived; its access-log line is being written.
    Logging { line: Seq<char> },
    /// A request arrived; the reply is being sent.
    Responding,
    /// The exchange with a peer failed; the failure is being set aside.
    Absorbing { error: ErrorView },
    /// The run is over, with this result.
    Terminated { result: Result<(), ErrorView> },
}

/// The outside work that the server asks of its driver.
pub enum Action {
    /// Bind a listener to the address.
    Bind { address: Seq<char> },
    /// Print the startup line.
    Announce { line: Seq<char> },
    /// Send the readiness signal; a failure to deliver it is ignored.
    NotifyReady(Ready),
    /// Look, without blocking, whether a shutdown request is waiting.
    PollShutdown,
    /// Print the notice on the error stream.
    Diagnose { line: Seq<char> },
    /// Wait for a connection, no longer than this many milliseconds.
    Accept { timeout_millis: u64 },
    /// Rest for this many milliseconds.
    Sleep { millis: u64 },
    /// Print the access-log line.
    LogAccess { line: Seq<char> },
    /// Send the reply to the request that was received last.
    Respond(ResponseView),
    /// Take note that one exchange with a peer failed; the run goes on.
    Absorb(ErrorView),
    /// Stop, and return the result.
    Finish(Result<(), ErrorView>),
}

/// The outcome of an action, as the driver reports it.
pub enum Event {
    /// A bind succeeded, or failed with the cause's text.
    Bound(Result<(), Seq<char>>),
    /// An action without an outcome of its own was carried out.
    Completed,
    /// The shutdown source was consulted.
    Polled(ShutdownPoll),
    /// A wait for a connection ended: with a request, with none in time, or
    /// with a failure and the cause's text.
    Received(Result<Option<RequestView>, Seq<char>>),
    /// The reply was sent, or sending failed with the cause's text.
    Responded(Result<(), Seq<char>>),
}

impl Phase {
    /// Whether the event is an outcome of the action that is pending in this
    /// phase.
    pub open spec fn awaits(self, event: Event) -> bool {
        match self {
            Phase::Binding => event is Bound,
            Phase::Announcing => event is Completed,
            Phase::Signalling => event is Completed,
            Phase::Polling => event is Polled,
            Phase::Diagnosing => event is Completed,
            Phase::Accepting => event is Received,
            Phase::Sleeping => event is Completed,
            Phase::Logging { .. } => event is Completed,
            Phase::Responding => event is Responded,
            Phase::Absorbing { .. } => event is Completed,
            Phase::Terminated { .. } => false,
        }
    }

    /// Whether the run is over.
    pub open spec fn is_terminated(self) -> bool {
        self is Terminated
    }
}

impl Config {
    /// The phase that follows a successful or failed bind.
    pub open spec fn bound(self, outcome: Result<(), Seq<char>>) -> Phase {
        match outcome {
            Ok(_) => Phase::Announcing,
            Err(cause) => Phase::Terminated {
                result: Err(ErrorView::bind_failure(self.listen_address, cause)),
            },
        }
    }

    /// The phase that follows the startup line.
    pub open spec fn announced(self) -> Phase {
        if self.ready_sender {
            Phase::Signalling
        } else {
            self.resume()
        }
    }

    /// The phase in which every round of the serving loop starts: the
    /// shutdown source is consulted first, where there is one.
    pub open spec fn resume(self) -> Phase {
        if self.shutdown_receiver {
            Phase::Polling
        } else {
            Phase::Accepting
        }
    }

    /// The phase that follows a wait for a connection.
    pub open spec fn received(self, outcome: Result<Option<RequestView>, Seq<char>>) -> Phase {
        match outcome {
            Ok(Some(request)) => if self.log_accesses {
                Phase::Logging { line: request.access_line() }
            } else {
                Phase::Responding
            },
            Ok(None) => Phase::Sleeping,
            Err(cause) => Phase::Absorbing { error: ErrorView::receive_failure(cause) },
        }
    }

    /// The phase that follows an attempt to send the reply.
    pub open spec fn responded(self, outcome: Result<(), Seq<char>>) -> Phase {
        match outcome {
            Ok(_) => self.resume(),
            Err(cause) => Phase::Absorbing { error: ErrorView::send_failure(cause) },
        }
    }

    /// The phase that follows one of the steps of serving a peer. An event
    /// that answers none of them leaves the phase as it is.
    pub open spec fn serve_next_peer(self, phase: Phase, event: Event) -> Phase {
        match (phase, event) {
            (Phase::Accepting, Event::Received(outcome)) => self.received(outcome),
            (Phase::Sleeping, Event::Completed) => self.resume(),
            (Phase::Logging { .. }, Event::Completed) => Phase::Responding,
            (Phase::Responding, Event::Responded(outcome)) => self.responded(outcome),
            (Phase::Absorbing { .. }, Event::Completed) => self.resume(),
            _ => phase,
        }
    }
}

/// The phase that follows a look at the shutdown source: the run ends on a
/// request, ends after a notice when the source is disconnected, and goes on
/// to await a connection otherwise.
pub open spec fn check_shutdown(poll: ShutdownPoll) -> Phase {
    match poll {
        ShutdownPoll::Requested(_) => Phase::Terminated { result: Ok(()) },
        ShutdownPoll::Disconnected => Phase::Diagnosing,
        ShutdownPoll::Empty => Phase::Accepting,
    }
}

/// A server in the middle of a run.
pub struct State {
    pub config: Config,
    pub phase: Phase,
}

impl State {
    /// The state in which every run starts.
    pub open spec fn initial(config: Config) -> State {
        State { config, phase: Phase::Binding }
    }

    /// Whether the phase is one that a run with this configuration can be
    /// in: what the configuration does not provide for is never pending,
    /// only a failure to receive or to send is set aside, and the only
    /// failure that a run ends with is the failure to bind its own address.
    pub open spec fn coherent(self) -> bool {
        match self.phase {
            Phase::Signalling => self.config.ready_sender,
            Phase::Polling => self.config.shutdown_receiver,
            Phase::Diagnosing => self.config.shutdown_receiver,
            Phase::Logging { .. } => self.config.log_accesses,
            Phase::Absorbing { error } => !error.kind.is_fatal(),
            Phase::Terminated { result: Ok(_) } => self.config.shutdown_receiver,
            Phase::Terminated { result: Err(error) } => error.kind
                == (ErrorKindView::BindFailure { listen_address: self.config.listen_address }),
            _ => true,
        }
    }

    /// The action that the server waits for in this state.
    pub open spec fn pending(self) -> Action {
        match self.phase {
            Phase::Binding => Action::Bind { address: self.config.listen_address },
            Phase::Announcing => Action::Announce {
                line: startup_line(self.config.listen_address),
            },
            Phase::Signalling => Action::NotifyReady(Ready),
            Phase::Polling => Action::PollShutdown,
            Phase::Diagnosing => Action::Diagnose { line: disconnect_notice() },
            Phase::Accepting => Action::Accept { timeout_millis: RECV_TIMEOUT_MILLIS },
            Phase::Sleeping => Action::Sleep { millis: RECV_SLEEP_MILLIS },
            Phase::Logging { line } => Action::LogAccess { line },
            Phase::Responding => Action::Respond(ResponseView::acknowledgement()),
            Phase::Absorbing { error } => Action::Absorb(error),
            Phase::Terminated { result } => Action::Finish(result),
        }
    }

    /// The state after the driver reported `event`.
    pub open spec fn next(self, event: Event) -> State {
        let phase = match (self.phase, event) {
            (Phase::Binding, Event::Bound(outcome)) => self.config.bound(outcome),
            (Phase::Announcing, Event::Completed) => self.config.announced(),
            (Phase::Signalling, Event::Completed) => self.config.resume(),
            (Phase::Polling, Event::Polled(poll)) => check_shutdown(poll),
            (Phase::Diagnosing, Event::Completed) => Phase::Terminated { result: Ok(()) },
            (Phase::Terminated { .. }, _) => self.phase,
            _ => self.config.serve_next_peer(self.phase, event),
        };
        State { config: self.config, phase }
    }
}

/// Every run starts in a coherent state.
pub proof fn initial_is_coherent(config: Config)
    ensures
        State::initial(config).coherent(),
{
}

/// No event leads out of the coherent states.
pub proof fn coherence_is_kept(state: State, event: Event)
    requires
        state.coherent(),
    ensures
        state.next(event).coherent(),
{
}

} // verus!
