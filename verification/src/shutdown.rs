//! How a run is stopped, and how soon.

use crate::model::disconnect_notice;
use crate::model::Action;
use crate::model::Config;
use crate::model::Event;
use crate::model::Phase;
use crate::model::State;
use crate::model::RECV_SLEEP_MILLIS;
use crate::model::RECV_TIMEOUT_MILLIS;
use crate::signal::Shutdown;
use crate::signal::ShutdownPoll;
use crate::trace::asked;
use crate::trace::issued;
use crate::trace::reached;
use crate::trace::run;
use crate::trace::run_from_first;
use crate::trace::run_is_orderly;
use crate::trace::terminated_is_final;
use vstd::prelude::*;

verus! {

/// The server as it consults the shutdown source.
pub open spec fn polling(config: Config) -> State {
    State { config, phase: Phase::Polling }
}

/// When the shutdown source holds a request, the run is over at once, with
/// success: the server asks for nothing else, and no connection is awaited
/// any more, whatever is reported afterwards.
pub proof fn shutdown_request_ends_the_run(config: Config, signal: Shutdown, later: Seq<Event>)
    ensures
        run(
            polling(config),
            seq![Event::Polled(ShutdownPoll::Requested(signal))] + later,
        ).phase == (Phase::Terminated { result: Ok(()) }),
        issued(polling(config), seq![Event::Polled(ShutdownPoll::Requested(signal))] + later)
            == seq![Action::Finish(Ok(()))],
{
    let start = polling(config);
    let event = Event::Polled(ShutdownPoll::Requested(signal));
    run_from_first(start, event, later);
    terminated_is_final(start.next(event), later);
}

/// When the shutdown source is found disconnected, the run ends as on a
/// request, after the notice was reported: nobody could stop it later.
pub proof fn disconnected_source_ends_the_run(config: Config, later: Seq<Event>)
    ensures
        run(
            polling(config),
            seq![Event::Polled(ShutdownPoll::Disconnected), Event::Completed] + later,
        ).phase == (Phase::Terminated { result: Ok(()) }),
        issued(
            polling(config),
            seq![Event::Polled(ShutdownPoll::Disconnected), Event::Completed] + later,
        ) == seq![Action::Diagnose { line: disconnect_notice() }, Action::Finish(Ok(()))],
{
    let start = polling(config);
    let found = Event::Polled(ShutdownPoll::Disconnected);
    let events = seq![found, Event::Completed] + later;
    assert(events =~= seq![found] + (seq![Event::Completed] + later));
    run_from_first(start, found, seq![Event::Completed] + later);
    let diagnosing = start.next(found);
    run_from_first(diagnosing, Event::Completed, later);
    let over = diagnosing.next(Event::Completed);
    terminated_is_final(over, later);
}

/// When nothing waits in the shutdown source, the server goes on to await a
/// connection.
pub proof fn empty_source_lets_the_run_go_on(config: Config)
    ensures
        polling(config).next(Event::Polled(ShutdownPoll::Empty)).phase == Phase::Accepting,
        polling(config).next(Event::Polled(ShutdownPoll::Empty)).pending() == (Action::Accept {
            timeout_millis: RECV_TIMEOUT_MILLIS,
        }),
{
}

/// In every run with a shutdown source, the source is consulted directly
/// before each wait for a connection.
pub proof fn shutdown_is_checked_before_each_wait(config: Config, events: Seq<Event>)
    requires
        config.shutdown_receiver,
    ensures
        forall|j: int|
            0 <= j < asked(config, events).len() && #[trigger] asked(config, events)[j] is Accept
                ==> j > 0 && asked(config, events)[j - 1] is PollShutdown,
{
    run_is_orderly(config, events);
}

/// What was begun is finished first: directly after a wait for a connection
/// and directly after an access-log line, the server neither consults the
/// shutdown source nor ends the run. A request that has arrived gets its
/// reply before a shutdown can be noticed.
pub proof fn arrived_requests_are_answered_first(config: Config, events: Seq<Event>)
    ensures
        forall|i: int|
            0 <= i && i + 1 < asked(config, events).len() && (#[trigger] asked(
                config,
                events,
            )[i] is Accept || asked(config, events)[i] is LogAccess) ==> {
                &&& !(asked(config, events)[i + 1] is PollShutdown)
                &&& !(asked(config, events)[i + 1] is Diagnose)
                &&& !(asked(config, events)[i + 1] is Finish)
            },
{
    run_is_orderly(config, events);
}

/// Whether the event at position `at` reports a look at the shutdown source
/// that stops the run.
pub open spec fn stop_reported_at(events: Seq<Event>, at: int) -> bool {
    &&& 0 <= at < events.len()
    &&& events[at] matches Event::Polled(poll)
    &&& poll.stops()
}

/// Whether one of the events reports a look at the shutdown source that
/// stops the run.
pub open spec fn stop_reported(events: Seq<Event>) -> bool {
    exists|at: int| stop_reported_at(events, at)
}

proof fn lemma_stop_was_reported(config: Config, events: Seq<Event>)
    ensures
        reached(config, events).phase is Diagnosing || reached(config, events).phase
            == (Phase::Terminated { result: Ok(()) }) ==> stop_reported(events),
    decreases events.len(),
{
    if events.len() > 0 {
        let earlier = events.drop_last();
        lemma_stop_was_reported(config, earlier);
        let before = reached(config, earlier);
        if stop_reported(earlier) {
            let at = choose|at: int| stop_reported_at(earlier, at);
            assert(stop_reported_at(events, at));
        } else if before.phase.awaits(events.last()) {
            if reached(config, events).phase is Diagnosing || reached(config, events).phase
                == (Phase::Terminated { result: Ok(()) }) {
                assert(stop_reported_at(events, events.len() - 1));
            }
        }
    }
}

/// A run ends with success only on a shutdown: a look at the shutdown source
/// found a request, or found the source disconnected. Without a shutdown
/// source the run never ends with success, and the source is never asked
/// for.
pub proof fn run_ends_only_on_shutdown(config: Config, events: Seq<Event>)
    ensures
        reached(config, events).phase == (Phase::Terminated { result: Ok(()) }) ==> stop_reported(
            events,
        ) && config.shutdown_receiver,
        !config.shutdown_receiver ==> forall|i: int|
            0 <= i < asked(config, events).len() ==> {
                &&& !(#[trigger] asked(config, events)[i] is PollShutdown)
                &&& asked(config, events)[i] != Action::Finish(Ok(()))
            },
{
    lemma_stop_was_reported(config, events);
    run_is_orderly(config, events);
}

/// Whether the shutdown source is being consulted, or the run has gone past
/// consulting it.
pub open spec fn consulting(phase: Phase) -> bool {
    phase is Polling || phase is Diagnosing || phase is Terminated
}

/// How many outcomes the driver reports, at most, before the shutdown source
/// is consulted again.
pub open spec fn round_left(phase: Phase) -> nat {
    match phase {
        Phase::Binding => 3,
        Phase::Announcing => 2,
        Phase::Signalling => 1,
        Phase::Accepting => 4,
        Phase::Sleeping => 1,
        Phase::Logging { .. } => 3,
        Phase::Responding => 2,
        Phase::Absorbing { .. } => 1,
        Phase::Polling => 0,
        Phase::Diagnosing => 0,
        Phase::Terminated { .. } => 0,
    }
}

/// For how many milliseconds the server lets its driver wait, at most,
/// before the shutdown source is consulted again.
pub open spec fn wait_left(phase: Phase) -> nat {
    match phase {
        Phase::Accepting => (RECV_TIMEOUT_MILLIS + RECV_SLEEP_MILLIS) as nat,
        Phase::Sleeping => RECV_SLEEP_MILLIS as nat,
        _ => 0,
    }
}

/// For how many milliseconds an action lets the driver wait, at most.
pub open spec fn wait_of(action: Action) -> nat {
    match action {
        Action::Accept { timeout_millis } => timeout_millis as nat,
        Action::Sleep { millis } => millis as nat,
        _ => 0,
    }
}

/// Whether every event answers the action that is pending when it is
/// reported.
pub open spec fn answered(start: State, events: Seq<Event>) -> bool {
    forall|k: int|
        0 <= k < events.len() ==> run(start, events.take(k)).phase.awaits(#[trigger] events[k])
}

/// For how many milliseconds the actions that `events` answer let the driver
/// wait, at most, all together.
pub open spec fn waited(start: State, events: Seq<Event>) -> nat
    decreases events.len(),
{
    if events.len() == 0 {
        0
    } else {
        waited(start, events.drop_last()) + wait_of(run(start, events.drop_last()).pending())
    }
}

proof fn lemma_waited_from_first(start: State, event: Event, later: Seq<Event>)
    ensures
        waited(start, seq![event] + later) == wait_of(start.pending()) + waited(
            start.next(event),
            later,
        ),
    decreases later.len(),
{
    let events = seq![event] + later;
    if later.len() == 0 {
        assert(waited(start, events.drop_last()) == 0);
    } else {
        lemma_waited_from_first(start, event, later.drop_last());
        assert(events.drop_last() =~= seq![event] + later.drop_last());
        run_from_first(start, event, later.drop_last());
    }
}

/// One answered event brings the next look at the shutdown source nearer,
/// and the time that its action may have taken is accounted for.
pub proof fn round_advances(state: State, event: Event)
    requires
        state.config.shutdown_receiver,
        state.phase.awaits(event),
        !consulting(state.phase),
    ensures
        round_left(state.next(event).phase) < round_left(state.phase),
        wait_of(state.pending()) + wait_left(state.next(event).phase) <= wait_left(state.phase),
{
}

/// With a shutdown source, the source is consulted in time: from wherever
/// the server stands, it is consulted again after four answered events at
/// most, and the actions in between let the driver wait for no more than
/// one receive timeout and one rest.
pub proof fn shutdown_source_is_consulted_in_time(start: State, events: Seq<Event>)
    requires
        start.config.shutdown_receiver,
        answered(start, events),
        events.len() >= round_left(start.phase),
    ensures
        exists|k: int|
            {
                &&& 0 <= k <= round_left(start.phase)
                &&& consulting(#[trigger] run(start, events.take(k)).phase)
                &&& waited(start, events.take(k)) <= wait_left(start.phase)
            },
        round_left(start.phase) <= 4,
        wait_left(start.phase) <= RECV_TIMEOUT_MILLIS + RECV_SLEEP_MILLIS,
    decreases round_left(start.phase),
{
    if !consulting(start.phase) {
        // The first event is answered and brings the look nearer; the rest
        // of the events is a run from there.
        let event = events[0];
        let later = events.drop_first();
        let next = start.next(event);
        round_advances(start, event);
        assert forall|k: int| 0 <= k < later.len() implies run(next, later.take(k)).phase.awaits(
            #[trigger] later[k],
        ) by {
            assert(events.take(k + 1) =~= seq![event] + later.take(k));
            run_from_first(start, event, later.take(k));
        }
        shutdown_source_is_consulted_in_time(next, later);
        let k = choose|k: int|
            {
                &&& 0 <= k <= round_left(next.phase)
                &&& consulting(#[trigger] run(next, later.take(k)).phase)
                &&& waited(next, later.take(k)) <= wait_left(next.phase)
            };
        assert(events.take(k + 1) =~= seq![event] + later.take(k));
        run_from_first(start, event, later.take(k));
        lemma_waited_from_first(start, event, later.take(k));
    }
}

} // verus!
