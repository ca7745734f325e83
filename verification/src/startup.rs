//! How a run starts, and how it can end.

use crate::error::ErrorKindView;
use crate::error::ErrorView;
use crate::model::startup_line;
use crate::model::Action;
use crate::model::Config;
use crate::model::Event;
use crate::model::Phase;
use crate::model::State;
use crate::signal::Ready;
use crate::trace::asked;
use crate::trace::opens_round;
use crate::trace::reached;
use crate::trace::run_from_first;
use crate::trace::run_is_orderly;
use crate::trace::terminated_is_final;
use vstd::prelude::*;

verus! {

/// When the bind succeeds, the run starts: the first thing that the server
/// asks for is the startup line, which names the listen address.
pub proof fn successful_bind_starts_the_run(config: Config, later: Seq<Event>)
    ensures
        asked(config, seq![Event::Bound(Ok(()))] + later).len() > 0,
        asked(config, seq![Event::Bound(Ok(()))] + later)[0] == (Action::Announce {
            line: startup_line(config.listen_address),
        }),
        !(reached(config, seq![Event::Bound(Ok(()))] + later).phase is Binding),
        !(reached(config, seq![Event::Bound(Ok(()))] + later).phase matches Phase::Terminated {
            result: Err(_),
        }),
{
    let events = seq![Event::Bound(Ok(()))] + later;
    run_from_first(State::initial(config), Event::Bound(Ok(())), later);
    run_is_orderly(config, events);
}

/// The listen address is bound once in a run: after the bind that every run
/// starts with, the server never asks for another.
pub proof fn address_is_bound_once(config: Config, events: Seq<Event>)
    ensures
        State::initial(config).pending() == (Action::Bind { address: config.listen_address }),
        forall|i: int|
            0 <= i < asked(config, events).len() ==> !(#[trigger] asked(config, events)[i] is Bind),
{
    run_is_orderly(config, events);
}

/// The startup line is never announced twice: it is the first thing asked
/// for after the bind, or it is not asked for at all.
pub proof fn startup_line_is_announced_once(config: Config, events: Seq<Event>)
    ensures
        forall|i: int|
            0 <= i < asked(config, events).len() && #[trigger] asked(config, events)[i] is Announce
                ==> i == 0 && asked(config, events)[i] == (Action::Announce {
                line: startup_line(config.listen_address),
            }),
{
    run_is_orderly(config, events);
}

/// The readiness signal is sent once at most, directly after the startup
/// line, and only where somebody waits for it.
pub proof fn readiness_is_signalled_once(config: Config, events: Seq<Event>)
    ensures
        forall|i: int|
            0 <= i < asked(config, events).len() && #[trigger] asked(
                config,
                events,
            )[i] is NotifyReady ==> config.ready_sender && i == 1 && asked(
                config,
                events,
            )[0] is Announce,
{
    run_is_orderly(config, events);
}

/// No connection is awaited, and no reply is sent, before the startup line
/// was announced and, where somebody waits for it, the readiness signal was
/// sent.
pub proof fn serving_starts_after_readiness(config: Config, events: Seq<Event>)
    ensures
        forall|j: int|
            0 <= j < asked(config, events).len() && (#[trigger] asked(config, events)[j] is Accept
                || asked(config, events)[j] is Respond) ==> {
                &&& j >= 1
                &&& asked(config, events)[0] is Announce
                &&& config.ready_sender ==> j >= 2 && asked(config, events)[1]
                    == Action::NotifyReady(Ready)
            },
{
    run_is_orderly(config, events);
}

/// When the bind fails, the run is over at once: it returns the failure to
/// bind the listen address, with the cause, and asks for nothing else. No
/// startup line is announced.
pub proof fn failed_bind_ends_the_run(config: Config, cause: Seq<char>, later: Seq<Event>)
    ensures
        reached(config, seq![Event::Bound(Err(cause))] + later).phase == (Phase::Terminated {
            result: Err(ErrorView::bind_failure(config.listen_address, cause)),
        }),
        asked(config, seq![Event::Bound(Err(cause))] + later) == seq![
            Action::Finish(Err(ErrorView::bind_failure(config.listen_address, cause))),
        ],
{
    let start = State::initial(config);
    let event = Event::Bound(Err(cause));
    run_from_first(start, event, later);
    terminated_is_final(start.next(event), later);
}

/// The only failure that a run returns is the failure to bind its listen
/// address. It is returned before anything else was asked for.
pub proof fn only_the_bind_can_fail(config: Config, events: Seq<Event>)
    ensures
        reached(config, events).phase matches Phase::Terminated { result: Err(error) } ==> {
            &&& error.kind == (ErrorKindView::BindFailure {
                listen_address: config.listen_address,
            })
            &&& asked(config, events) == seq![Action::Finish(Err(error))]
        },
        forall|i: int|
            0 <= i < asked(config, events).len() ==> (#[trigger] asked(
                config,
                events,
            )[i] matches Action::Finish(Err(error)) ==> i == 0 && error.kind
                == (ErrorKindView::BindFailure { listen_address: config.listen_address })),
{
    run_is_orderly(config, events);
}

/// A failure in the exchange with a peer never ends the run: what is set
/// aside is a failure to receive or to send, and the next thing asked for
/// is the start of another round.
pub proof fn peer_failures_are_absorbed(config: Config, events: Seq<Event>)
    ensures
        forall|i: int|
            0 <= i < asked(config, events).len() ==> (#[trigger] asked(
                config,
                events,
            )[i] matches Action::Absorb(error) ==> {
                &&& error.kind is ReceiveFailure || error.kind is SendFailure
                &&& i + 1 < asked(config, events).len() ==> opens_round(
                    config,
                    asked(config, events)[i + 1],
                )
            }),
{
    run_is_orderly(config, events);
}

} // verus!
