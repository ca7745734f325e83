//! The server: the lifecycle controller and the serving loop, as a machine
//! that its driver runs one action at a time.
//!
//! The driver owns the socket, the clock and the console. It performs the
//! action that the server has pending and reports the outcome; the two
//! actions that concern the channels the server carries out itself:
//!
//! ```text
//! let mut server = args.as_server_builder().serve();
//! let mut action = server.pending();
//! loop {
//!     action = match action {
//!         Action::NotifyReady(_) => server.notify_ready(),
//!         Action::PollShutdown => server.check_shutdown(),
//!         Action::Finish(result) => return result,
//!         other => server.step(/* perform `other` and report how it went */),
//!     };
//! }
//! ```
//!
//! Everything that is decided during a run is decided here; what the machine
//! does is fixed by the transition system of [`crate::model`].

use crate::channel::send_ready;
use crate::channel::try_recv_shutdown;
use crate::config::Args;
use crate::error::Error;
use crate::error::ErrorView;
use crate::http::Request;
use crate::http::RequestView;
use crate::http::Response;
use crate::http::HTTP_STATUS_OK;
use crate::model;
use crate::model::RECV_SLEEP_MILLIS;
use crate::model::RECV_TIMEOUT_MILLIS;
use crate::signal::Ready;
use crate::signal::Shutdown;
use crate::signal::ShutdownPoll;
use std::sync::mpsc::Receiver;
use std::sync::mpsc::Sender;
use vstd::prelude::*;
use vstd::string::*;

verus! {

/// The outcome of a bind or of a send, as the model sees it.
pub open spec fn outcome_view(outcome: Result<(), String>) -> Result<(), Seq<char>> {
    match outcome {
        Ok(_) => Ok(()),
        Err(cause) => Err(cause@),
    }
}

/// The outcome of a wait for a connection, as the model sees it.
pub open spec fn received_view(outcome: Result<Option<Request>, String>) -> Result<
    Option<RequestView>,
    Seq<char>,
> {
    match outcome {
        Ok(Some(request)) => Ok(Some(request@)),
        Ok(None) => Ok(None),
        Err(cause) => Err(cause@),
    }
}

/// The result of a run, as the model sees it.
pub open spec fn result_view(result: Result<(), Error>) -> Result<(), ErrorView> {
    match result {
        Ok(_) => Ok(()),
        Err(error) => Err(error@),
    }
}

/// The outcome of an action, as the driver reports it.
#[derive(Debug, PartialEq, Eq)]
pub enum Event {
    /// A bind succeeded, or failed with the cause's text.
    Bound(Result<(), String>),
    /// An action without an outcome of its own was carried out.
    Completed,
    /// The shutdown source was consulted.
    Polled(ShutdownPoll),
    /// A wait for a connection ended: with a request, with none in time, or
    /// with a failure and the cause's text.
    Received(Result<Option<Request>, String>),
    /// The reply was sent, or sending failed with the cause's text.
    Responded(Result<(), String>),
}

impl View for Event {
    type V = model::Event;

    open spec fn view(&self) -> model::Event {
        match self {
            Event::Bound(outcome) => model::Event::Bound(outcome_view(*outcome)),
            Event::Completed => model::Event::Completed,
            Event::Polled(poll) => model::Event::Polled(*poll),
            Event::Received(outcome) => model::Event::Received(received_view(*outcome)),
            Event::Responded(outcome) => model::Event::Responded(outcome_view(*outcome)),
        }
    }
}

/// The outside work that the server asks of its driver.
#[derive(Debug, PartialEq, Eq)]
pub enum Action {
    /// Bind a listener to the address. Answered by [`Event::Bound`].
    Bind { address: String },
    /// Print the startup line. Answered by [`Event::Completed`].
    Announce { line: String },
    /// Send the readiness signal, and ignore a failure to deliver it.
    /// Carried out by [`Server::notify_ready`], or answered by
    /// [`Event::Completed`].
    NotifyReady(Ready),
    /// Look, without blocking, whether a shutdown request is waiting.
    /// Carried out by [`Server::check_shutdown`], or answered by
    /// [`Event::Polled`].
    PollShutdown,
    /// Print the notice on the error stream. Answered by
    /// [`Event::Completed`].
    Diagnose { line: String },
    /// Wait for a connection, no longer than this many milliseconds.
    /// Answered by [`Event::Received`].
    Accept { timeout_millis: u64 },
    /// Rest for this many milliseconds. Answered by [`Event::Completed`].
    Sleep { millis: u64 },
    /// Print the access-log line. Answered by [`Event::Completed`].
    LogAccess { line: String },
    /// Send the reply to the request that was received last. Answered by
    /// [`Event::Responded`].
    Respond(Response),
    /// Take note that one exchange with a peer failed; the run goes on.
    /// Answered by [`Event::Completed`].
    Absorb(Error),
    /// Stop, and return the result. Nothing answers it.
    Finish(Result<(), Error>),
}

impl View for Action {
    type V = model::Action;

    open spec fn view(&self) -> model::Action {
        match self {
            Action::Bind { address } => model::Action::Bind { address: address@ },
            Action::Announce { line } => model::Action::Announce { line: line@ },
            Action::NotifyReady(signal) => model::Action::NotifyReady(*signal),
            Action::PollShutdown => model::Action::PollShutdown,
            Action::Diagnose { line } => model::Action::Diagnose { line: line@ },
            Action::Accept { timeout_millis } => model::Action::Accept {
                timeout_millis: *timeout_millis,
            },
            Action::Sleep { millis } => model::Action::Sleep { millis: *millis },
            Action::LogAccess { line } => model::Action::LogAccess { line: line@ },
            Action::Respond(response) => model::Action::Respond(response@),
            Action::Absorb(error) => model::Action::Absorb(error@),
            Action::Finish(result) => model::Action::Finish(result_view(*result)),
        }
    }
}

/// Where a run stands.
#[derive(Debug, PartialEq, Eq)]
pub enum Phase {
    /// The listen address is being bound.
    Binding,
    /// The address is bound; the startup line is being announced.
    Announcing,
    /// The readiness signal is being sent.
    Signalling,
    /// The shutdown source is being consulted.
    Polling,
    /// The shutdown source was found disconnected; the notice is being
    /// reported.
    Diagnosing,
    /// A connection is being awaited, for a bounded time.
    Accepting,
    /// No connection arrived; the server rests briefly.
    Sleeping,
    /// A request arrived; its access-log line is being written.
    Logging { line: String },
    /// A request arrived; the reply is being sent.
    Responding,
    /// The exchange with a peer failed; the failure is being set aside.
    Absorbing { error: Error },
    /// The run is over, with this result.
    Terminated { result: Result<(), Error> },
}

impl View for Phase {
    type V = model::Phase;

    open spec fn view(&self) -> model::Phase {
        match self {
            Phase::Binding => model::Phase::Binding,
            Phase::Announcing => model::Phase::Announcing,
            Phase::Signalling => model::Phase::Signalling,
            Phase::Polling => model::Phase::Polling,
            Phase::Diagnosing => model::Phase::Diagnosing,
            Phase::Accepting => model::Phase::Accepting,
            Phase::Sleeping => model::Phase::Sleeping,
            Phase::Logging { line } => model::Phase::Logging { line: line@ },
            Phase::Responding => model::Phase::Responding,
            Phase::Absorbing { error } => model::Phase::Absorbing { error: error@ },
            Phase::Terminated { result } => model::Phase::Terminated {
                result: result_view(*result),
            },
        }
    }
}

/// Configuration for an HTTP server.
#[must_use]
#[derive(Debug)]
pub struct Builder<'a> {
    args: &'a Args,
    ready_tx: Option<Sender<Ready>>,
    shutdown_rx: Option<Receiver<Shutdown>>,
}

/// The configuration that a run of the builder would have. Of the channel
/// ends it tells only whether there is one; which ones are held is told by
/// [`Builder::held_sender`] and [`Builder::held_receiver`].
impl<'a> View for Builder<'a> {
    type V = model::Config;

    closed spec fn view(&self) -> model::Config {
        model::Config {
            listen_address: self.args@.listen_address,
            log_accesses: self.args@.log_accesses,
            ready_sender: self.ready_tx is Some,
            shutdown_receiver: self.shutdown_rx is Some,
        }
    }
}

impl Args {
    /// Returns an HTTP server builder: no readiness signal is sent and no
    /// shutdown source is consulted until the builder is given the channels.
    pub fn as_server_builder(&self) -> (builder: Builder<'_>)
        ensures
            builder@ == (model::Config {
                listen_address: self@.listen_address,
                log_accesses: self@.log_accesses,
                ready_sender: false,
                shutdown_receiver: false,
            }),
            builder.held_sender() is None,
            builder.held_receiver() is None,
    {
        Builder { args: self, ready_tx: None, shutdown_rx: None }
    }

    /// The line announced once the listen address is bound.
    pub fn startup_line(&self) -> (line: String)
        ensures
            line@ == model::startup_line(self@.listen_address),
    {
        let mut line = String::from_str("Listening at http://");
        line.append(self.listen_address());
        line.append(" (and will reply to all HTTP requests with empty body, OK 200)");
        line
    }
}

impl<'a> Builder<'a> {
    /// The sender that the builder holds for the readiness signal, if it was
    /// given one.
    pub closed spec fn held_sender(&self) -> Option<Sender<Ready>> {
        self.ready_tx
    }

    /// The receiver that the builder holds for shutdown requests, if it was
    /// given one.
    pub closed spec fn held_receiver(&self) -> Option<Receiver<Shutdown>> {
        self.shutdown_rx
    }

    /// Sets the sender to be notified when the server is [`Ready`]. It takes
    /// the place of a sender that was set before; the receiver stays.
    pub fn set_ready_sender(self, ready_tx: Sender<Ready>) -> (builder: Builder<'a>)
        ensures
            builder@ == (model::Config { ready_sender: true, ..self@ }),
            builder.held_sender() == Some(ready_tx),
            builder.held_receiver() == self.held_receiver(),
    {
        Builder { args: self.args, ready_tx: Some(ready_tx), shutdown_rx: self.shutdown_rx }
    }

    /// Sets the receiver for the server [`Shutdown`] signal. It takes the
    /// place of a receiver that was set before; the sender stays.
    pub fn set_shutdown_receiver(self, shutdown_rx: Receiver<Shutdown>) -> (builder: Builder<'a>)
        ensures
            builder@ == (model::Config { shutdown_receiver: true, ..self@ }),
            builder.held_receiver() == Some(shutdown_rx),
            builder.held_sender() == self.held_sender(),
    {
        Builder { args: self.args, ready_tx: self.ready_tx, shutdown_rx: Some(shutdown_rx) }
    }

    /// Starts a run of the server on the address given by the arguments,
    /// with the channel ends that the builder holds. The first thing that
    /// the server asks for is the bind.
    pub fn serve(self) -> (server: Server<'a>)
        ensures
            server@ == model::State::initial(self@),
            server@.coherent(),
            server.held_sender() == self.held_sender(),
            server.held_receiver() == self.held_receiver(),
    {
        Server {
            args: self.args,
            ready_sender: self.ready_tx.is_some(),
            shutdown_receiver: self.shutdown_rx.is_some(),
            ready_tx: self.ready_tx,
            shutdown_rx: self.shutdown_rx,
            phase: Phase::Binding,
        }
    }
}

/// A server in the middle of a run.
#[derive(Debug)]
pub struct Server<'a> {
    args: &'a Args,
    /// Whether the run was given a sender for the readiness signal.
    ready_sender: bool,
    /// Whether the run was given a receiver for shutdown requests.
    shutdown_receiver: bool,
    /// The sender, until the readiness signal is sent.
    ready_tx: Option<Sender<Ready>>,
    shutdown_rx: Option<Receiver<Shutdown>>,
    phase: Phase,
}

/// The state of the run. Of the channel ends it tells only whether the run
/// was given one; which ones are held is told by [`Server::held_sender`] and
/// [`Server::held_receiver`].
impl<'a> View for Server<'a> {
    type V = model::State;

    closed spec fn view(&self) -> model::State {
        model::State {
            config: model::Config {
                listen_address: self.args@.listen_address,
                log_accesses: self.args@.log_accesses,
                ready_sender: self.ready_sender,
                shutdown_receiver: self.shutdown_receiver,
            },
            phase: self.phase@,
        }
    }
}

impl<'a> Server<'a> {
    /// A server is always in a phase that its configuration allows, and it
    /// holds the receiver that it was given.
    #[verifier::type_invariant]
    spec fn coherent(&self) -> bool {
        &&& self@.coherent()
        &&& self.shutdown_receiver == (self.shutdown_rx is Some)
    }

    /// The sender that the server holds for the readiness signal: the one
    /// that the run was given, until the signal is sent.
    pub closed spec fn held_sender(&self) -> Option<Sender<Ready>> {
        self.ready_tx
    }

    /// The receiver that the server holds for shutdown requests: the one
    /// that the run was given, for the whole run.
    pub closed spec fn held_receiver(&self) -> Option<Receiver<Shutdown>> {
        self.shutdown_rx
    }

    /// The phase that follows a bind.
    fn bound(&self, outcome: Result<(), String>) -> (phase: Phase)
        ensures
            phase@ == self@.config.bound(outcome_view(outcome)),
    {
        match outcome {
            Ok(_) => Phase::Announcing,
            Err(cause) => Phase::Terminated {
                result: Err(
                    Error::bind_failure(String::from_str(self.args.listen_address()), cause),
                ),
            },
        }
    }

    /// The phase that follows the startup line.
    fn announced(&self) -> (phase: Phase)
        ensures
            phase@ == self@.config.announced(),
    {
        if self.ready_sender {
            Phase::Signalling
        } else {
            self.resume()
        }
    }

    /// The phase in which every round of the serving loop starts.
    fn resume(&self) -> (phase: Phase)
        ensures
            phase@ == self@.config.resume(),
    {
        if self.shutdown_receiver {
            Phase::Polling
        } else {
            Phase::Accepting
        }
    }

    /// The phase that follows a look at the shutdown source.
    fn polled(poll: ShutdownPoll) -> (phase: Phase)
        ensures
            phase@ == model::check_shutdown(poll),
    {
        match poll {
            ShutdownPoll::Requested(_) => Phase::Terminated { result: Ok(()) },
            ShutdownPoll::Disconnected => Phase::Diagnosing,
            ShutdownPoll::Empty => Phase::Accepting,
        }
    }

    /// The phase that follows one of the steps of serving a peer, or `None`
    /// where the event answers none of them.
    fn serve_next_peer(&self, event: Event) -> (moved: Option<Phase>)
        ensures
            self@.config.serve_next_peer(self@.phase, event@) == match moved {
                Some(next) => next@,
                None => self@.phase,
            },
    {
        match &self.phase {
            Phase::Accepting => match event {
                Event::Received(Ok(Some(request))) => if self.args.logs_accesses() {
                    Some(Phase::Logging { line: request.access_line() })
                } else {
                    Some(Phase::Responding)
                },
                Event::Received(Ok(None)) => Some(Phase::Sleeping),
                Event::Received(Err(cause)) => Some(
                    Phase::Absorbing { error: Error::receive_failure(cause) },
                ),
                _ => None,
            },
            Phase::Sleeping => match event {
                Event::Completed => Some(self.resume()),
                _ => None,
            },
            Phase::Logging { .. } => match event {
                Event::Completed => Some(Phase::Responding),
                _ => None,
            },
            Phase::Responding => match event {
                Event::Responded(Ok(_)) => Some(self.resume()),
                Event::Responded(Err(cause)) => Some(
                    Phase::Absorbing { error: Error::send_failure(cause) },
                ),
                _ => None,
            },
            Phase::Absorbing { .. } => match event {
                Event::Completed => Some(self.resume()),
                _ => None,
            },
            _ => None,
        }
    }

    /// Where the run stands.
    pub fn phase(&self) -> (phase: &Phase)
        ensures
            phase@ == self@.phase,
            self@.coherent(),
    {
        proof {
            use_type_invariant(self);
        }
        &self.phase
    }

    /// Whether the run is over.
    pub fn is_terminated(&self) -> (over: bool)
        ensures
            over == self@.phase.is_terminated(),
    {
        match &self.phase {
            Phase::Terminated { .. } => true,
            _ => false,
        }
    }

    /// The action that the server waits for.
    pub fn pending(&self) -> (action: Action)
        ensures
            action@ == self@.pending(),
            self@.coherent(),
    {
        proof {
            use_type_invariant(self);
        }
        match &self.phase {
            Phase::Binding => Action::Bind {
                address: String::from_str(self.args.listen_address()),
            },
            Phase::Announcing => Action::Announce { line: self.args.startup_line() },
            Phase::Signalling => Action::NotifyReady(Ready),
            Phase::Polling => Action::PollShutdown,
            Phase::Diagnosing => Action::Diagnose {
                line: String::from_str("termination channel receive failure"),
            },
            Phase::Accepting => Action::Accept { timeout_millis: RECV_TIMEOUT_MILLIS },
            Phase::Sleeping => Action::Sleep { millis: RECV_SLEEP_MILLIS },
            Phase::Logging { line } => Action::LogAccess { line: line.clone() },
            Phase::Responding => Action::Respond(Response::empty(HTTP_STATUS_OK)),
            Phase::Absorbing { error } => Action::Absorb(error.clone()),
            Phase::Terminated { result } => Action::Finish(
                match result {
                    Ok(_) => Ok(()),
                    Err(error) => Err(error.clone()),
                },
            ),
        }
    }

    /// Takes the outcome of the pending action and returns the action that is
    /// pending next.
    ///
    /// An event that is no outcome of the pending action changes nothing: the
    /// same action is returned again. After the end of the run every event
    /// returns the same `Finish`. Neither channel end is touched: a
    /// readiness signal that is answered here is not sent, and the sender
    /// stays held.
    pub fn step(&mut self, event: Event) -> (action: Action)
        ensures
            final(self)@ == old(self)@.next(event@),
            action@ == final(self)@.pending(),
            final(self)@.coherent(),
            final(self).held_sender() == old(self).held_sender(),
            final(self).held_receiver() == old(self).held_receiver(),
    {
        let ghost reported = event@;
        proof {
            use_type_invariant(&*self);
            model::coherence_is_kept(self@, reported);
        }
        let moved = match &self.phase {
            Phase::Binding => match event {
                Event::Bound(outcome) => Some(self.bound(outcome)),
                _ => None,
            },
            Phase::Announcing => match event {
                Event::Completed => Some(self.announced()),
                _ => None,
            },
            Phase::Signalling => match event {
                Event::Completed => Some(self.resume()),
                _ => None,
            },
            Phase::Polling => match event {
                Event::Polled(poll) => Some(Self::polled(poll)),
                _ => None,
            },
            Phase::Diagnosing => match event {
                Event::Completed => Some(Phase::Terminated { result: Ok(()) }),
                _ => None,
            },
            Phase::Terminated { .. } => None,
            _ => self.serve_next_peer(event),
        };
        match moved {
            Some(phase) => {
                self.phase = phase;
            },
            None => {},
        }
        self.pending()
    }

    /// Carries out a pending [`Action::NotifyReady`]: sends the readiness
    /// signal to the sender that the run was given, gives the sender up, and
    /// goes on as [`Server::step`] does on [`Event::Completed`]. Whether
    /// anybody receives the signal plays no part. Where no readiness signal
    /// is pending, nothing is sent and nothing changes.
    pub fn notify_ready(&mut self) -> (action: Action)
        ensures
            final(self)@ == if old(self)@.phase is Signalling {
                old(self)@.next(model::Event::Completed)
            } else {
                old(self)@
            },
            action@ == final(self)@.pending(),
            final(self)@.coherent(),
            final(self).held_sender() == if old(self)@.phase is Signalling {
                None
            } else {
                old(self).held_sender()
            },
            final(self).held_receiver() == old(self).held_receiver(),
    {
        proof {
            use_type_invariant(&*self);
        }
        match &self.phase {
            Phase::Signalling => {
                let mut ready_tx: Option<Sender<Ready>> = None;
                core::mem::swap(&mut self.ready_tx, &mut ready_tx);
                match ready_tx {
                    Some(ready_tx) => send_ready(ready_tx, Ready),
                    None => {},
                }
                self.step(Event::Completed)
            },
            _ => self.pending(),
        }
    }

    /// Carries out a pending [`Action::PollShutdown`]: looks, without
    /// blocking, whether the receiver that the run was given holds a
    /// shutdown request, and goes on as [`Server::step`] does on the
    /// [`Event::Polled`] of what it found. Where no look at the shutdown
    /// source is pending, the receiver is left alone and nothing changes.
    pub fn check_shutdown(&mut self) -> (action: Action)
        ensures
            old(self)@.phase is Polling ==> exists|poll: ShutdownPoll|
                final(self)@ == #[trigger] old(self)@.next(model::Event::Polled(poll)),
            !(old(self)@.phase is Polling) ==> final(self)@ == old(self)@,
            action@ == final(self)@.pending(),
            final(self)@.coherent(),
            final(self).held_sender() == old(self).held_sender(),
            final(self).held_receiver() == old(self).held_receiver(),
    {
        proof {
            use_type_invariant(&*self);
        }
        match &self.phase {
            Phase::Polling => {
                let poll = match &self.shutdown_rx {
                    Some(shutdown_rx) => try_recv_shutdown(shutdown_rx),
                    None => {
                        // A server that consults its shutdown source holds one.
                        assert(false);
                        ShutdownPoll::Disconnected
                    },
                };
                self.step(Event::Polled(poll))
            },
            _ => self.pending(),
        }
    }
}

} // verus!
