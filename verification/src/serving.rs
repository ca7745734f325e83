//! What serving requests does, and what it leaves as it was.

use crate::http::RequestView;
use crate::http::ResponseView;
use crate::http::HTTP_STATUS_OK;
use crate::model::Action;
use crate::model::Config;
use crate::model::Event;
use crate::model::Phase;
use crate::model::State;
use crate::model::RECV_TIMEOUT_MILLIS;
use crate::signal::ShutdownPoll;
use crate::trace::asked;
use crate::trace::issued;
use crate::trace::run;
use crate::trace::run_from_first;
use crate::trace::run_is_orderly;
use crate::trace::run_of_concatenation;
use vstd::prelude::*;

verus! {

/// The server as it waits for a connection.
pub open spec fn waiting(config: Config) -> State {
    State { config, phase: Phase::Accepting }
}

/// What the driver reports while one request is served without a failure,
/// from its arrival to the next wait for a connection.
pub open spec fn exchange(config: Config, request: RequestView) -> Seq<Event> {
    seq![Event::Received(Ok(Some(request)))] + (if config.log_accesses {
        seq![Event::Completed]
    } else {
        Seq::empty()
    }) + seq![Event::Responded(Ok(()))] + (if config.shutdown_receiver {
        seq![Event::Polled(ShutdownPoll::Empty)]
    } else {
        Seq::empty()
    })
}

/// What the server asks for while one request is served without a failure:
/// the access-log line where accesses are logged, the reply, the look at the
/// shutdown source where there is one, and the next wait for a connection.
pub open spec fn exchange_actions(config: Config, request: RequestView) -> Seq<Action> {
    (if config.log_accesses {
        seq![Action::LogAccess { line: request.access_line() }]
    } else {
        Seq::empty()
    }) + seq![Action::Respond(ResponseView::acknowledgement())] + (if config.shutdown_receiver {
        seq![Action::PollShutdown]
    } else {
        Seq::empty()
    }) + seq![Action::Accept { timeout_millis: RECV_TIMEOUT_MILLIS }]
}

/// What the driver reports while the requests are served one after the
/// other, each without a failure.
pub open spec fn exchanges(config: Config, requests: Seq<RequestView>) -> Seq<Event>
    decreases requests.len(),
{
    if requests.len() == 0 {
        Seq::empty()
    } else {
        exchanges(config, requests.drop_last()) + exchange(config, requests.last())
    }
}

/// The replies among the actions, in order.
pub open spec fn replies(actions: Seq<Action>) -> Seq<ResponseView>
    decreases actions.len(),
{
    if actions.len() == 0 {
        Seq::empty()
    } else {
        match actions.last() {
            Action::Respond(response) => replies(actions.drop_last()).push(response),
            _ => replies(actions.drop_last()),
        }
    }
}

/// The access-log lines among the actions, in order.
pub open spec fn log_lines(actions: Seq<Action>) -> Seq<Seq<char>>
    decreases actions.len(),
{
    if actions.len() == 0 {
        Seq::empty()
    } else {
        match actions.last() {
            Action::LogAccess { line } => log_lines(actions.drop_last()).push(line),
            _ => log_lines(actions.drop_last()),
        }
    }
}

/// The replies of two runs of actions, one after the other.
pub proof fn replies_of_concatenation(first: Seq<Action>, second: Seq<Action>)
    ensures
        replies(first + second) == replies(first) + replies(second),
    decreases second.len(),
{
    if second.len() > 0 {
        replies_of_concatenation(first, second.drop_last());
        assert((first + second).drop_last() =~= first + second.drop_last());
    }
}

/// The access-log lines of two runs of actions, one after the other.
pub proof fn log_lines_of_concatenation(first: Seq<Action>, second: Seq<Action>)
    ensures
        log_lines(first + second) == log_lines(first) + log_lines(second),
    decreases second.len(),
{
    if second.len() > 0 {
        log_lines_of_concatenation(first, second.drop_last());
        assert((first + second).drop_last() =~= first + second.drop_last());
    }
}

proof fn lemma_of_one(action: Action)
    ensures
        replies(seq![action]) == match action {
            Action::Respond(response) => seq![response],
            _ => Seq::empty(),
        },
        log_lines(seq![action]) == match action {
            Action::LogAccess { line } => seq![line],
            _ => Seq::empty(),
        },
{
    let earlier = seq![action].drop_last();
    assert(replies(earlier) =~= Seq::<ResponseView>::empty());
    assert(log_lines(earlier) =~= Seq::<Seq<char>>::empty());
}

/// Serving one request asks for exactly the actions of
/// [`exchange_actions`] and leads back to where it began: the server waits
/// for a connection, and nothing of the request is kept.
pub proof fn exchange_returns_to_waiting(config: Config, request: RequestView)
    ensures
        run(waiting(config), exchange(config, request)) == waiting(config),
        issued(waiting(config), exchange(config, request)) == exchange_actions(config, request),
{
    let arrival = Event::Received(Ok(Some(request)));
    let sent = Event::Responded(Ok(()));
    let polled = Event::Polled(ShutdownPoll::Empty);
    let none = Seq::<Event>::empty();
    let logged = if config.log_accesses {
        seq![Event::Completed]
    } else {
        none
    };
    let checked = if config.shutdown_receiver {
        seq![polled]
    } else {
        none
    };
    let start = waiting(config);
    assert(exchange(config, request) =~= seq![arrival] + (logged + (seq![sent] + checked)));
    run_from_first(start, arrival, logged + (seq![sent] + checked));
    let arrived = start.next(arrival);
    let responding = State { config, phase: Phase::Responding };
    if config.log_accesses {
        run_from_first(arrived, Event::Completed, seq![sent] + checked);
    }
    run_from_first(responding, sent, checked);
    if config.shutdown_receiver {
        run_from_first(responding.next(sent), polled, none);
    }
}

/// Every request gets the same reply, whatever its method, its path and its
/// peer: status 200 and an empty body. Where accesses are logged, the request
/// leaves one line in the log, which is its access-log line; where they are
/// not, it leaves none.
pub proof fn every_request_is_acknowledged(config: Config, request: RequestView)
    ensures
        replies(issued(waiting(config), exchange(config, request))) == seq![
            ResponseView::acknowledgement(),
        ],
        ResponseView::acknowledgement().status == 200,
        ResponseView::acknowledgement().body.len() == 0,
        log_lines(issued(waiting(config), exchange(config, request))) == if config.log_accesses {
            seq![request.access_line()]
        } else {
            Seq::<Seq<char>>::empty()
        },
{
    exchange_returns_to_waiting(config, request);
    let logging = if config.log_accesses {
        seq![Action::LogAccess { line: request.access_line() }]
    } else {
        Seq::<Action>::empty()
    };
    let reply = seq![Action::Respond(ResponseView::acknowledgement())];
    let checking = if config.shutdown_receiver {
        seq![Action::PollShutdown]
    } else {
        Seq::<Action>::empty()
    };
    let accepting = seq![Action::Accept { timeout_millis: RECV_TIMEOUT_MILLIS }];
    lemma_of_one(Action::LogAccess { line: request.access_line() });
    lemma_of_one(Action::Respond(ResponseView::acknowledgement()));
    lemma_of_one(Action::PollShutdown);
    lemma_of_one(Action::Accept { timeout_millis: RECV_TIMEOUT_MILLIS });
    replies_of_concatenation(logging, reply);
    replies_of_concatenation(logging + reply, checking);
    replies_of_concatenation(logging + reply + checking, accepting);
    log_lines_of_concatenation(logging, reply);
    log_lines_of_concatenation(logging + reply, checking);
    log_lines_of_concatenation(logging + reply + checking, accepting);
}

/// Serving changes nothing: after any number of requests, served one after
/// the other, the server is in the state in which it was before the first.
/// Each of them got the same reply, and where accesses are logged each of
/// them left its line in the log, in the order of arrival.
pub proof fn requests_change_nothing(config: Config, requests: Seq<RequestView>)
    ensures
        run(waiting(config), exchanges(config, requests)) == waiting(config),
        replies(issued(waiting(config), exchanges(config, requests))) == Seq::new(
            requests.len(),
            |i: int| ResponseView::acknowledgement(),
        ),
        log_lines(issued(waiting(config), exchanges(config, requests))) == if config.log_accesses {
            Seq::new(requests.len(), |i: int| requests[i].access_line())
        } else {
            Seq::<Seq<char>>::empty()
        },
    decreases requests.len(),
{
    let start = waiting(config);
    if requests.len() > 0 {
        let earlier = requests.drop_last();
        let request = requests.last();
        requests_change_nothing(config, earlier);
        exchange_returns_to_waiting(config, request);
        every_request_is_acknowledged(config, request);
        run_of_concatenation(start, exchanges(config, earlier), exchange(config, request));
        let before = issued(start, exchanges(config, earlier));
        let after = issued(start, exchange(config, request));
        replies_of_concatenation(before, after);
        log_lines_of_concatenation(before, after);
    }
}

/// In every run, every reply is the same: status 200 and an empty body.
pub proof fn every_reply_is_the_acknowledgement(config: Config, events: Seq<Event>)
    ensures
        forall|i: int|
            0 <= i < asked(config, events).len() ==> (#[trigger] asked(
                config,
                events,
            )[i] matches Action::Respond(response) ==> response.status == HTTP_STATUS_OK
                && response.body == Seq::<u8>::empty()),
{
    run_is_orderly(config, events);
}

/// In every run with access logging, a reply is sent only directly after the
/// access-log line of its request, and after every such line the reply is
/// the next thing asked for. The line is written only directly after the
/// arrival of a request.
pub proof fn accesses_are_logged_when_enabled(config: Config, events: Seq<Event>)
    requires
        config.log_accesses,
    ensures
        forall|i: int|
            0 <= i < asked(config, events).len() && #[trigger] asked(config, events)[i] is Respond
                ==> i > 0 && asked(config, events)[i - 1] is LogAccess,
        forall|i: int|
            0 <= i < asked(config, events).len() && #[trigger] asked(config, events)[i] is LogAccess
                ==> i > 0 && asked(config, events)[i - 1] is Accept,
        forall|i: int|
            0 <= i && i + 1 < asked(config, events).len() && #[trigger] asked(
                config,
                events,
            )[i] is LogAccess ==> asked(config, events)[i + 1] is Respond,
{
    run_is_orderly(config, events);
}

/// In every run without access logging, no access-log line is written.
pub proof fn accesses_are_not_logged_when_disabled(config: Config, events: Seq<Event>)
    requires
        !config.log_accesses,
    ensures
        forall|i: int|
            0 <= i < asked(config, events).len() ==> !(#[trigger] asked(
                config,
                events,
            )[i] is LogAccess),
{
    run_is_orderly(config, events);
}

} // verus!
