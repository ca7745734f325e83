//! Runs of the server, and what holds of every one of them.
//!
//! A run is given by its configuration and by the events that the driver
//! reports, in order. Nothing is assumed of the driver: events that answer no
//! pending action are in the sequences too, and change nothing.

use crate::error::ErrorKindView;
use crate::http::ResponseView;
use crate::model::disconnect_notice;
use crate::model::startup_line;
use crate::model::Action;
use crate::model::Config;
use crate::model::Event;
use crate::model::State;
use crate::model::RECV_SLEEP_MILLIS;
use crate::model::RECV_TIMEOUT_MILLIS;
use vstd::prelude::*;

verus! {

/// The state that `events`, reported in order, lead to from `start`.
pub open spec fn run(start: State, events: Seq<Event>) -> State
    decreases events.len(),
{
    if events.len() == 0 {
        start
    } else {
        run(start, events.drop_last()).next(events.last())
    }
}

/// The actions that the server asks for while `events` are reported from
/// `start`, in order: one for each event that answers the action pending at
/// its time. The action pending in `start` itself is not among them.
pub open spec fn issued(start: State, events: Seq<Event>) -> Seq<Action>
    decreases events.len(),
{
    if events.len() == 0 {
        Seq::empty()
    } else {
        let before = run(start, events.drop_last());
        let earlier = issued(start, events.drop_last());
        if before.phase.awaits(events.last()) {
            earlier.push(before.next(events.last()).pending())
        } else {
            earlier
        }
    }
}

/// The state that a run with this configuration is in after `events`.
pub open spec fn reached(config: Config, events: Seq<Event>) -> State {
    run(State::initial(config), events)
}

/// The actions that a run with this configuration asks for after the bind,
/// while `events` are reported.
pub open spec fn asked(config: Config, events: Seq<Event>) -> Seq<Action> {
    issued(State::initial(config), events)
}

/// Whether `action` starts a round of the serving loop: the look at the
/// shutdown source where there is one, the wait for a connection where there
/// is none.
pub open spec fn opens_round(config: Config, action: Action) -> bool {
    if config.shutdown_receiver {
        action is PollShutdown
    } else {
        action is Accept
    }
}

/// Whether the server may ask for `later` directly after `earlier`.
pub open spec fn may_follow(config: Config, earlier: Action, later: Action) -> bool {
    match earlier {
        Action::Bind { .. } => later is Announce || later is Finish,
        Action::Announce { .. } => if config.ready_sender {
            later is NotifyReady
        } else {
            opens_round(config, later)
        },
        Action::NotifyReady(_) => opens_round(config, later),
        Action::PollShutdown => later is Accept || later is Diagnose || later == Action::Finish(
            Ok(()),
        ),
        Action::Diagnose { .. } => later == Action::Finish(Ok(())),
        Action::Accept { .. } => later is Sleep || later is Absorb || if config.log_accesses {
            later is LogAccess
        } else {
            later is Respond
        },
        Action::Sleep { .. } => opens_round(config, later),
        Action::LogAccess { .. } => later is Respond,
        Action::Respond(_) => later is Absorb || opens_round(config, later),
        Action::Absorb(_) => opens_round(config, later),
        Action::Finish(_) => false,
    }
}

/// Whether `action` is one that a server with this configuration asks for
/// after the bind: with the texts, the times and the reply that are fixed,
/// and only with what the configuration provides for.
pub open spec fn fits(config: Config, action: Action) -> bool {
    match action {
        Action::Bind { .. } => false,
        Action::Announce { line } => line == startup_line(config.listen_address),
        Action::NotifyReady(_) => config.ready_sender,
        Action::PollShutdown => config.shutdown_receiver,
        Action::Diagnose { line } => config.shutdown_receiver && line == disconnect_notice(),
        Action::Accept { timeout_millis } => timeout_millis == RECV_TIMEOUT_MILLIS,
        Action::Sleep { millis } => millis == RECV_SLEEP_MILLIS,
        Action::LogAccess { .. } => config.log_accesses,
        Action::Respond(response) => response == ResponseView::acknowledgement(),
        Action::Absorb(error) => !error.kind.is_fatal(),
        Action::Finish(Ok(_)) => config.shutdown_receiver,
        Action::Finish(Err(error)) => error.kind == (ErrorKindView::BindFailure {
            listen_address: config.listen_address,
        }),
    }
}

/// Whether a sequence of actions keeps to the order of a run: it starts with
/// the startup line or with the report of the failed bind, every action may
/// follow the one before it, and every action fits the configuration.
pub open spec fn orderly(config: Config, actions: Seq<Action>) -> bool {
    &&& actions.len() > 0 ==> actions[0] is Announce || (actions[0] is Finish && actions[0]
        != Action::Finish(Ok(())))
    &&& forall|i: int| 0 < i < actions.len() ==> may_follow(config, actions[i - 1], #[trigger] actions[i])
    &&& forall|i: int| 0 <= i < actions.len() ==> fits(config, #[trigger] actions[i])
}

/// A run of one event.
pub proof fn run_of_one(start: State, event: Event)
    ensures
        run(start, seq![event]) == start.next(event),
        issued(start, seq![event]) == if start.phase.awaits(event) {
            seq![start.next(event).pending()]
        } else {
            Seq::<Action>::empty()
        },
{
    let earlier = seq![event].drop_last();
    assert(run(start, earlier) == start);
    assert(issued(start, earlier) =~= Seq::<Action>::empty());
}

/// A run can be cut anywhere: the second part goes on where the first ended,
/// and asks for what it would ask for from there.
pub proof fn run_of_concatenation(start: State, first: Seq<Event>, second: Seq<Event>)
    ensures
        run(start, first + second) == run(run(start, first), second),
        issued(start, first + second) == issued(start, first) + issued(
            run(start, first),
            second,
        ),
    decreases second.len(),
{
    if second.len() > 0 {
        run_of_concatenation(start, first, second.drop_last());
        assert((first + second).drop_last() =~= first + second.drop_last());
    }
}

/// A run of a first event and of those that follow it.
pub proof fn run_from_first(start: State, event: Event, later: Seq<Event>)
    ensures
        run(start, seq![event] + later) == run(start.next(event), later),
        issued(start, seq![event] + later) == if start.phase.awaits(event) {
            seq![start.next(event).pending()] + issued(start.next(event), later)
        } else {
            issued(start, later)
        },
{
    run_of_one(start, event);
    run_of_concatenation(start, seq![event], later);
}

/// A run that starts in a coherent state stays in the coherent states.
pub proof fn run_keeps_coherence(start: State, events: Seq<Event>)
    requires
        start.coherent(),
    ensures
        run(start, events).coherent(),
    decreases events.len(),
{
    if events.len() > 0 {
        run_keeps_coherence(start, events.drop_last());
    }
}

/// The end of a run is final: whatever is reported afterwards, the state
/// stays as it is and nothing more is asked for.
pub proof fn terminated_is_final(state: State, events: Seq<Event>)
    requires
        state.phase is Terminated,
    ensures
        run(state, events) == state,
        issued(state, events) == Seq::<Action>::empty(),
    decreases events.len(),
{
    if events.len() > 0 {
        terminated_is_final(state, events.drop_last());
    }
}

/// An event that answers no pending action changes nothing.
pub proof fn unanswered_changes_nothing(state: State, event: Event)
    requires
        !state.phase.awaits(event),
    ensures
        state.next(event) == state,
{
}

/// What the proof of [`run_is_orderly`] carries from event to event.
spec fn consistent(config: Config, state: State, actions: Seq<Action>) -> bool {
    &&& state.config == config
    &&& orderly(config, actions)
    &&& actions.len() == 0 <==> state.phase is Binding
    &&& actions.len() > 0 ==> actions.last() == state.pending()
}

proof fn lemma_consistent(config: Config, events: Seq<Event>)
    ensures
        consistent(
            config,
            run(State::initial(config), events),
            issued(State::initial(config), events),
        ),
    decreases events.len(),
{
    if events.len() > 0 {
        lemma_consistent(config, events.drop_last());
    }
}

/// Every run keeps to the protocol: whatever the driver reports, the actions
/// that the server asks for after the bind are in the order of
/// [`may_follow`], and each of them fits the configuration. The last of them
/// is the one that is pending at the end.
pub proof fn run_is_orderly(config: Config, events: Seq<Event>)
    ensures
        orderly(config, asked(config, events)),
        reached(config, events).config == config,
        asked(config, events).len() == 0 <==> reached(config, events).phase is Binding,
        asked(config, events).len() > 0 ==> asked(config, events).last() == reached(
            config,
            events,
        ).pending(),
{
    lemma_consistent(config, events);
}

} // verus!
