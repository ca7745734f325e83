//! Whole runs of the server against a scripted driver.

use null_webhook::error::ErrorKind;
use null_webhook::http::Request;
use null_webhook::http::Response;
use null_webhook::server::Action;
use null_webhook::server::Event;
use null_webhook::server::Server;
use null_webhook::Args;
use null_webhook::Ready;
use null_webhook::ServerError;
use null_webhook::Shutdown;
use std::sync::mpsc::channel;
use std::sync::mpsc::Receiver;
use std::sync::mpsc::Sender;
use std::sync::mpsc::TryRecvError;

const HTTP_OK: u32 = 200;

/// How the user stops the run, once every scripted arrival was served.
enum Interrupt {
    /// The interrupt handler sends the shutdown signal.
    Signal,
    /// The sending end of the shutdown channel is dropped.
    DropSender,
}

/// What the surroundings of the server do during a run.
struct Script {
    /// How the bind ends.
    bind: Result<(), String>,
    /// What each wait for a connection ends with, in order; after the last
    /// of them the user interrupts.
    arrivals: Vec<Result<Option<Request>, String>>,
    /// Sends that fail, by the number of the reply, with the cause.
    failing_sends: Vec<(usize, String)>,
    /// How the user interrupts.
    interrupt: Interrupt,
    /// The sending end of the shutdown channel, where the run has one.
    shutdown_tx: Option<Sender<Shutdown>>,
    /// The receiving end of the readiness channel, where the run has one.
    ready_rx: Option<Receiver<Ready>>,
    /// After how many actions the driver gives up on a run that does not
    /// end.
    patience: usize,
}

/// What a run left behind.
struct Transcript {
    bound: Vec<String>,
    stdout: String,
    stderr: String,
    /// How many readiness signals had arrived when the first connection was
    /// awaited.
    ready_before_first_wait: usize,
    /// How many readiness signals arrived in all.
    ready_signals: usize,
    replies: Vec<Response>,
    absorbed: Vec<ServerError>,
    waits: Vec<u64>,
    rests: Vec<u64>,
    polls: usize,
    /// The kinds of the actions, in order.
    actions: Vec<&'static str>,
    result: Option<Result<(), ServerError>>,
}

fn script(arrivals: Vec<Result<Option<Request>, String>>) -> Script {
    Script {
        bind: Ok(()),
        arrivals,
        failing_sends: vec![],
        interrupt: Interrupt::Signal,
        shutdown_tx: None,
        ready_rx: None,
        patience: 1000,
    }
}

fn get(path: &str, port: u16) -> Result<Option<Request>, String> {
    Ok(Some(Request::new(
        String::from("GET"),
        String::from(path),
        Some(format!("127.0.0.1:{port}")),
    )))
}

/// Counts the readiness signals that have arrived since the last count.
fn arrived(ready_rx: &Option<Receiver<Ready>>) -> usize {
    let mut count = 0;
    if let Some(ready_rx) = ready_rx {
        while let Ok(Ready) = ready_rx.try_recv() {
            count += 1;
        }
    }
    count
}

/// Runs the server as its driver would, with the script in place of the
/// socket, the clock and the user.
fn drive(mut server: Server<'_>, mut script: Script) -> Transcript {
    let mut transcript = Transcript {
        bound: vec![],
        stdout: String::new(),
        stderr: String::new(),
        ready_before_first_wait: 0,
        ready_signals: 0,
        replies: vec![],
        absorbed: vec![],
        waits: vec![],
        rests: vec![],
        polls: 0,
        actions: vec![],
        result: None,
    };
    let mut arrivals = script.arrivals.into_iter();
    let mut pending_arrivals = arrivals.len();
    let mut action = server.pending();
    for _ in 0..script.patience {
        let event = match action {
            Action::Bind { address } => {
                transcript.actions.push("Bind");
                transcript.bound.push(address);
                Event::Bound(script.bind.clone())
            }
            Action::Announce { line } => {
                transcript.actions.push("Announce");
                transcript.stdout.push_str(&line);
                transcript.stdout.push('\n');
                Event::Completed
            }
            Action::NotifyReady(_) => {
                transcript.actions.push("NotifyReady");
                action = server.notify_ready();
                continue;
            }
            Action::PollShutdown => {
                transcript.actions.push("PollShutdown");
                transcript.polls += 1;
                if pending_arrivals == 0 {
                    if let Some(shutdown_tx) = script.shutdown_tx.take() {
                        match script.interrupt {
                            Interrupt::Signal => {
                                transcript.stderr.push_str("user requested shutdown...\n");
                                shutdown_tx.send(Shutdown).expect("termination channel send failed");
                            }
                            Interrupt::DropSender => drop(shutdown_tx),
                        }
                    }
                }
                action = server.check_shutdown();
                continue;
            }
            Action::Diagnose { line } => {
                transcript.actions.push("Diagnose");
                transcript.stderr.push_str(&line);
                transcript.stderr.push('\n');
                Event::Completed
            }
            Action::Accept { timeout_millis } => {
                transcript.actions.push("Accept");
                if transcript.waits.is_empty() {
                    transcript.ready_before_first_wait = arrived(&script.ready_rx);
                    transcript.ready_signals = transcript.ready_before_first_wait;
                }
                transcript.waits.push(timeout_millis);
                match arrivals.next() {
                    Some(arrival) => {
                        pending_arrivals -= 1;
                        Event::Received(arrival)
                    }
                    None => Event::Received(Ok(None)),
                }
            }
            Action::Sleep { millis } => {
                transcript.actions.push("Sleep");
                transcript.rests.push(millis);
                Event::Completed
            }
            Action::LogAccess { line } => {
                transcript.actions.push("LogAccess");
                transcript.stdout.push_str(&line);
                transcript.stdout.push('\n');
                Event::Completed
            }
            Action::Respond(response) => {
                transcript.actions.push("Respond");
                let number = transcript.replies.len();
                transcript.replies.push(response);
                match script.failing_sends.iter().find(|(at, _)| *at == number) {
                    Some((_, cause)) => Event::Responded(Err(cause.clone())),
                    None => Event::Responded(Ok(())),
                }
            }
            Action::Absorb(error) => {
                transcript.actions.push("Absorb");
                transcript.absorbed.push(error);
                Event::Completed
            }
            Action::Finish(result) => {
                transcript.actions.push("Finish");
                transcript.result = Some(result);
                break;
            }
        };
        action = server.step(event);
    }
    transcript.ready_signals += arrived(&script.ready_rx);
    transcript
}

/// A run with both channels: the server is told of readiness through one
/// and stopped through the other.
fn drive_with_channels(args: &Args, mut run: Script) -> Transcript {
    let (ready_tx, ready_rx) = channel();
    let (shutdown_tx, shutdown_rx) = channel();
    run.ready_rx = Some(ready_rx);
    run.shutdown_tx = Some(shutdown_tx);
    let server = args
        .as_server_builder()
        .set_ready_sender(ready_tx)
        .set_shutdown_receiver(shutdown_rx)
        .serve();
    drive(server, run)
}

/// A run that can be stopped, and tells nobody of its readiness.
fn drive_with_shutdown(args: &Args, mut run: Script) -> Transcript {
    let (shutdown_tx, shutdown_rx) = channel();
    run.shutdown_tx = Some(shutdown_tx);
    let server = args.as_server_builder().set_shutdown_receiver(shutdown_rx).serve();
    drive(server, run)
}

/// Replaces each port (a colon and the digits behind it) by `[:PORT]`.
fn mask_ports(text: &str) -> String {
    let mut masked = String::new();
    let mut chars = text.chars().peekable();
    while let Some(c) = chars.next() {
        if c == ':' && chars.peek().is_some_and(|d| d.is_ascii_digit()) {
            while chars.peek().is_some_and(|d| d.is_ascii_digit()) {
                chars.next();
            }
            masked.push_str("[:PORT]");
        } else {
            masked.push(c);
        }
    }
    masked
}

fn assert_response(label: &'static str, response: &Response, code: u32, check_fn: impl FnOnce(&str) -> bool) {
    let Ok(content) = std::str::from_utf8(&response.body) else {
        panic!("expected UTF-8 response string for {label}");
    };
    assert_eq!(response.status, code, "{label} code");
    assert!(check_fn(content), "{label} check");
}

#[test]
fn end_to_end_empty() {
    let listen_address = String::from("127.0.0.1:9582");
    let args = Args::listen(listen_address.clone());

    let transcript = drive_with_channels(
        &args,
        script(vec![get("/metrics", 40001), get("/", 40002), get("/unknown", 40003)]),
    );

    // no fatal errors
    assert_eq!(transcript.stderr, "user requested shutdown...\n");
    assert_eq!(transcript.stdout, format!("Listening at http://{listen_address} (and will reply to all HTTP requests with empty body, OK 200)\n"));
    assert!(
        matches!(transcript.result, Some(Ok(()))),
        "verify sleep duration after SIGINT, killing too early?"
    );

    assert_eq!(transcript.replies.len(), 3);
    let metrics = &transcript.replies[0];
    let root = &transcript.replies[1];
    let unknown = &transcript.replies[2];

    assert_response("root", root, HTTP_OK, |content| {
        assert_eq!(content, "", "root");
        content.is_empty()
    });

    assert_response("unknown", unknown, HTTP_OK, |content| {
        assert_eq!(content, "", "unknown");
        content.is_empty()
    });

    assert_response("metrics", metrics, HTTP_OK, |content| {
        assert_eq!(content, "", "metrics");
        content.is_empty()
    });

    assert_eq!(transcript.bound, vec![listen_address]);
    assert_eq!(transcript.ready_before_first_wait, 1);
    assert_eq!(transcript.ready_signals, 1);
}

#[test]
fn end_to_end_log_accesses_empty() {
    let listen_address = String::from("127.0.0.1:9583");
    let args = Args::listen(listen_address).log_accesses();

    let transcript = drive_with_channels(
        &args,
        script(vec![get("/metrics", 51234), get("/", 51236), get("/unknown", 51238)]),
    );

    // no fatal errors
    assert_eq!(transcript.stderr, "user requested shutdown...\n");
    assert_eq!(
        mask_ports(&transcript.stdout),
        "Listening at http://127.0.0.1[:PORT] (and will reply to all HTTP requests with empty body, OK 200)\n\
         Request(GET /metrics from Some(127.0.0.1[:PORT]))\n\
         Request(GET / from Some(127.0.0.1[:PORT]))\n\
         Request(GET /unknown from Some(127.0.0.1[:PORT]))\n"
    );
    assert!(
        matches!(transcript.result, Some(Ok(()))),
        "verify sleep duration after SIGINT, killing too early?"
    );

    assert_eq!(transcript.replies.len(), 3);
    let metrics = &transcript.replies[0];
    let root = &transcript.replies[1];
    let unknown = &transcript.replies[2];

    assert_response("root", root, HTTP_OK, |content| {
        assert_eq!(content, "", "root");
        content.is_empty()
    });

    assert_response("unknown", unknown, HTTP_OK, |content| {
        assert_eq!(content, "", "unknown");
        content.is_empty()
    });

    assert_response("metrics", metrics, HTTP_OK, |content| {
        assert_eq!(content, "", "metrics");
        content.is_empty()
    });
}

#[test]
fn access_log_shows_exact_lines() {
    let args = Args::listen(String::from("127.0.0.1:9582")).log_accesses();
    let transcript = drive_with_shutdown(
        &args,
        script(vec![
            get("/metrics", 40001),
            Ok(Some(Request::new(String::from("POST"), String::from("/hook?x=1"), None))),
        ]),
    );
    assert_eq!(
        transcript.stdout,
        "Listening at http://127.0.0.1:9582 (and will reply to all HTTP requests with empty body, OK 200)\n\
         Request(GET /metrics from Some(127.0.0.1:40001))\n\
         Request(POST /hook?x=1 from None)\n"
    );
    assert_eq!(transcript.replies.len(), 2);
}

#[test]
fn logging_does_not_change_the_replies() {
    let requests = || vec![get("/metrics", 40001), get("/", 40002), get("/unknown", 40003)];
    let quiet_args = Args::listen(String::from("127.0.0.1:9582"));
    let quiet = drive_with_shutdown(&quiet_args, script(requests()));
    let loud_args = Args::listen(String::from("127.0.0.1:9582")).log_accesses();
    let loud = drive_with_shutdown(&loud_args, script(requests()));

    assert_eq!(quiet.replies, loud.replies);
    assert_eq!(quiet.result, loud.result);
    assert_eq!(quiet.stdout.lines().count(), 1);
    assert_eq!(loud.stdout.lines().count(), 4);
    assert!(!quiet.actions.contains(&"LogAccess"));
    assert_eq!(loud.actions.iter().filter(|kind| **kind == "LogAccess").count(), 3);
}

#[test]
fn order_of_a_run_with_every_option() {
    let args = Args::listen(String::from("127.0.0.1:9582")).log_accesses();
    let transcript = drive_with_channels(&args, script(vec![get("/", 40001), Ok(None)]));
    assert_eq!(
        transcript.actions,
        vec![
            "Bind",
            "Announce",
            "NotifyReady",
            "PollShutdown",
            "Accept",
            "LogAccess",
            "Respond",
            "PollShutdown",
            "Accept",
            "Sleep",
            "PollShutdown",
            "Finish",
        ]
    );
    assert_eq!(transcript.waits, vec![100, 100]);
    assert_eq!(transcript.rests, vec![10]);
}

#[test]
fn order_of_a_run_with_no_option() {
    let args = Args::listen(String::from("127.0.0.1:9582"));
    let server = args.as_server_builder().serve();
    let mut run = script(vec![get("/", 40001), Ok(None)]);
    run.patience = 9;
    let transcript = drive(server, run);
    assert_eq!(
        transcript.actions,
        vec!["Bind", "Announce", "Accept", "Respond", "Accept", "Sleep", "Accept", "Sleep", "Accept"]
    );
    assert_eq!(transcript.ready_signals, 0);
    assert_eq!(transcript.polls, 0);
    assert!(transcript.result.is_none());
}

#[test]
fn without_a_shutdown_source_the_run_does_not_end() {
    let args = Args::listen(String::from("127.0.0.1:9582"));
    let (ready_tx, ready_rx) = channel();
    let server = args.as_server_builder().set_ready_sender(ready_tx).serve();
    let mut run = script(vec![get("/", 40001)]);
    run.ready_rx = Some(ready_rx);
    let transcript = drive(server, run);
    assert!(transcript.result.is_none());
    assert_eq!(transcript.actions.len(), 1000);
    assert_eq!(transcript.polls, 0);
    assert_eq!(transcript.ready_signals, 1);
    assert_eq!(transcript.replies.len(), 1);
    assert_eq!(transcript.stderr, "");
}

#[test]
fn readiness_is_signalled_before_the_first_wait() {
    let args = Args::listen(String::from("127.0.0.1:9582"));
    let transcript = drive_with_channels(&args, script(vec![get("/", 40001), get("/", 40002)]));
    let ready = transcript.actions.iter().position(|kind| *kind == "NotifyReady");
    let announce = transcript.actions.iter().position(|kind| *kind == "Announce");
    let accept = transcript.actions.iter().position(|kind| *kind == "Accept");
    assert_eq!(announce, Some(1));
    assert_eq!(ready, Some(2));
    assert_eq!(accept, Some(4));
    assert_eq!(transcript.ready_before_first_wait, 1);
    assert_eq!(transcript.ready_signals, 1);
    assert_eq!(transcript.actions.iter().filter(|kind| **kind == "Announce").count(), 1);
}

#[test]
fn bind_conflict_fails_the_run_without_a_startup_line() {
    let args = Args::listen(String::from("127.0.0.1:9582"));
    let mut run = script(vec![get("/", 40001)]);
    run.bind = Err(String::from("Address already in use (os error 98)"));
    let transcript = drive_with_channels(&args, run);

    assert_eq!(transcript.actions, vec!["Bind", "Finish"]);
    assert_eq!(transcript.stdout, "");
    assert_eq!(transcript.stderr, "");
    assert_eq!(transcript.ready_signals, 0);
    let Some(Err(error)) = transcript.result else {
        panic!("a failed bind fails the run");
    };
    assert_eq!(
        error.kind(),
        &ErrorKind::BindFailure { listen_address: String::from("127.0.0.1:9582") }
    );
    assert_eq!(error.cause(), "Address already in use (os error 98)");
    assert_eq!(error.message(), "failed to bind HTTP server to 127.0.0.1:9582");
    assert!(error.is_fatal());
}

#[test]
fn disconnected_shutdown_source_ends_the_run_with_a_notice() {
    let args = Args::listen(String::from("127.0.0.1:9582"));
    let mut run = script(vec![get("/", 40001)]);
    run.interrupt = Interrupt::DropSender;
    let transcript = drive_with_shutdown(&args, run);

    assert_eq!(transcript.stderr, "termination channel receive failure\n");
    assert!(matches!(transcript.result, Some(Ok(()))));
    assert_eq!(
        transcript.actions,
        vec!["Bind", "Announce", "PollShutdown", "Accept", "Respond", "PollShutdown", "Diagnose", "Finish"]
    );
}

#[test]
fn shutdown_before_any_request_serves_nothing() {
    let args = Args::listen(String::from("127.0.0.1:9582"));
    let transcript = drive_with_shutdown(&args, script(vec![]));
    assert_eq!(transcript.actions, vec!["Bind", "Announce", "PollShutdown", "Finish"]);
    assert!(transcript.waits.is_empty());
    assert!(matches!(transcript.result, Some(Ok(()))));
}

#[test]
fn peer_failures_do_not_end_the_run() {
    let args = Args::listen(String::from("127.0.0.1:9582"));
    let mut run = script(vec![
        get("/first", 40001),
        Err(String::from("connection reset")),
        get("/second", 40002),
        get("/third", 40003),
    ]);
    run.failing_sends = vec![(1, String::from("broken pipe"))];
    let transcript = drive_with_shutdown(&args, run);

    assert!(matches!(transcript.result, Some(Ok(()))));
    assert_eq!(transcript.replies.len(), 3);
    assert_eq!(transcript.absorbed.len(), 2);
    assert_eq!(transcript.absorbed[0].kind(), &ErrorKind::ReceiveFailure);
    assert_eq!(transcript.absorbed[0].cause(), "connection reset");
    assert_eq!(transcript.absorbed[0].message(), "failed to receive from client");
    assert!(!transcript.absorbed[0].is_fatal());
    assert_eq!(transcript.absorbed[1].kind(), &ErrorKind::SendFailure);
    assert_eq!(transcript.absorbed[1].cause(), "broken pipe");
    assert_eq!(transcript.absorbed[1].message(), "failed to send to client");
    assert!(!transcript.absorbed[1].is_fatal());
    assert_eq!(
        transcript.actions,
        vec![
            "Bind",
            "Announce",
            "PollShutdown",
            "Accept",
            "Respond",
            "PollShutdown",
            "Accept",
            "Absorb",
            "PollShutdown",
            "Accept",
            "Respond",
            "Absorb",
            "PollShutdown",
            "Accept",
            "Respond",
            "PollShutdown",
            "Finish",
        ]
    );
}

#[test]
fn many_requests_get_the_same_reply() {
    let args = Args::listen(String::from("[::1]:8080"));
    let methods = ["GET", "POST", "PUT", "DELETE", "PATCH", "HEAD", "OPTIONS"];
    let mut arrivals = vec![];
    for round in 0..50 {
        let method = methods[round % methods.len()];
        arrivals.push(Ok(Some(Request::new(
            String::from(method),
            format!("/hooks/{round}"),
            Some(format!("[::1]:{}", 50000 + round)),
        ))));
    }
    let transcript = drive_with_shutdown(&args, script(arrivals));
    assert_eq!(transcript.replies.len(), 50);
    for reply in &transcript.replies {
        assert_eq!(reply, &Response::empty(200));
        assert_eq!(reply.status, 200);
        assert!(reply.body.is_empty());
    }
    assert_eq!(
        transcript.stdout,
        "Listening at http://[::1]:8080 (and will reply to all HTTP requests with empty body, OK 200)\n"
    );
    assert!(matches!(transcript.result, Some(Ok(()))));
}

#[test]
fn at_most_one_wait_lies_between_two_polls() {
    let args = Args::listen(String::from("127.0.0.1:9582")).log_accesses();
    let mut run = script(vec![
        get("/", 40001),
        Ok(None),
        Err(String::from("reset")),
        get("/", 40002),
        Ok(None),
    ]);
    run.failing_sends = vec![(1, String::from("broken pipe"))];
    let transcript = drive_with_shutdown(&args, run);

    let mut since_poll = 0;
    let mut waits_since_poll = 0;
    let mut polled = false;
    for kind in &transcript.actions {
        if *kind == "PollShutdown" {
            polled = true;
            since_poll = 0;
            waits_since_poll = 0;
        } else if polled {
            since_poll += 1;
            if *kind == "Accept" {
                waits_since_poll += 1;
            }
            assert!(since_poll <= 4, "a round has four actions at most");
            assert!(waits_since_poll <= 1, "a round waits for a connection once");
        }
    }
    assert!(matches!(transcript.result, Some(Ok(()))));
}

#[test]
fn readiness_signal_that_nobody_takes_is_no_failure() {
    let args = Args::listen(String::from("127.0.0.1:9582"));
    let (ready_tx, ready_rx) = channel::<Ready>();
    let (shutdown_tx, shutdown_rx) = channel();
    drop(ready_rx);
    let server = args
        .as_server_builder()
        .set_ready_sender(ready_tx)
        .set_shutdown_receiver(shutdown_rx)
        .serve();
    let mut run = script(vec![get("/", 40001)]);
    run.shutdown_tx = Some(shutdown_tx);
    let transcript = drive(server, run);
    assert!(matches!(transcript.result, Some(Ok(()))));
    assert_eq!(transcript.replies.len(), 1);
    assert_eq!(
        transcript.actions,
        vec![
            "Bind",
            "Announce",
            "NotifyReady",
            "PollShutdown",
            "Accept",
            "Respond",
            "PollShutdown",
            "Finish",
        ]
    );
}

#[test]
fn readiness_channel_is_closed_after_the_signal() {
    let args = Args::listen(String::from("127.0.0.1:9582"));
    let (ready_tx, ready_rx) = channel();
    let mut server = args.as_server_builder().set_ready_sender(ready_tx).serve();
    server.step(Event::Bound(Ok(())));
    assert_eq!(ready_rx.try_recv(), Err(TryRecvError::Empty));
    assert_eq!(server.step(Event::Completed), Action::NotifyReady(Ready));
    assert_eq!(ready_rx.try_recv(), Err(TryRecvError::Empty));
    assert_eq!(server.notify_ready(), Action::Accept { timeout_millis: 100 });
    assert_eq!(ready_rx.try_recv(), Ok(Ready));
    assert_eq!(ready_rx.try_recv(), Err(TryRecvError::Disconnected));
    for _ in 0..3 {
        assert_eq!(server.notify_ready(), Action::Accept { timeout_millis: 100 });
    }
    assert_eq!(ready_rx.try_recv(), Err(TryRecvError::Disconnected));
}

#[test]
fn shutdown_requests_after_the_first_are_ignored() {
    let args = Args::listen(String::from("127.0.0.1:9582"));
    let (shutdown_tx, shutdown_rx) = channel();
    shutdown_tx.send(Shutdown).expect("the receiver is alive");
    shutdown_tx.send(Shutdown).expect("the receiver is alive");
    shutdown_tx.send(Shutdown).expect("the receiver is alive");
    let server = args.as_server_builder().set_shutdown_receiver(shutdown_rx).serve();
    let transcript = drive(server, script(vec![get("/", 40001)]));
    assert_eq!(transcript.actions, vec!["Bind", "Announce", "PollShutdown", "Finish"]);
    assert!(matches!(transcript.result, Some(Ok(()))));
    assert!(transcript.replies.is_empty());
}
