//! The configuration.

use null_webhook::server::Action;
use null_webhook::server::Event;
use null_webhook::Args;

#[test]
fn listen_does_not_log_accesses() {
    let args = Args::listen(String::from("127.0.0.1:9582"));
    assert_eq!(args.listen_address(), "127.0.0.1:9582");
    assert!(!args.logs_accesses());
}

#[test]
fn log_accesses_keeps_the_address() {
    let args = Args::listen(String::from("[::1]:9582")).log_accesses();
    assert_eq!(args.listen_address(), "[::1]:9582");
    assert!(args.logs_accesses());
    let again = args.log_accesses();
    assert_eq!(again.listen_address(), "[::1]:9582");
    assert!(again.logs_accesses());
}

#[test]
fn builders_share_the_arguments() {
    let args = Args::listen(String::from("127.0.0.1:9582"));
    let first = args.as_server_builder().serve();
    let mut second = args.as_server_builder().set_ready_sender(std::sync::mpsc::channel().0).serve();
    assert_eq!(first.pending(), Action::Bind { address: String::from("127.0.0.1:9582") });
    assert_eq!(second.pending(), first.pending());
    second.step(Event::Bound(Ok(())));
    assert_eq!(first.pending(), Action::Bind { address: String::from("127.0.0.1:9582") });
}
