//! The two channel ends that connect a server to the rest of its process.

use crate::signal::Ready;
use crate::signal::Shutdown;
use crate::signal::ShutdownPoll;
use std::sync::mpsc::Receiver;
use std::sync::mpsc::Sender;
use std::sync::mpsc::TryRecvError;
use vstd::prelude::*;

verus! {

/// The sending end of a channel of the standard library,
/// `std::sync::mpsc::Sender`. Nothing is known of what it holds.
#[verifier::external_type_specification]
#[verifier::external_body]
#[verifier::reject_recursive_types(T)]
pub struct ExSender<T>(Sender<T>);

/// The receiving end of a channel of the standard library,
/// `std::sync::mpsc::Receiver`. Nothing is known of what it holds.
#[verifier::external_type_specification]
#[verifier::external_body]
#[verifier::reject_recursive_types(T)]
pub struct ExReceiver<T>(Receiver<T>);

/// Sends the readiness signal with `Sender::send`, which never blocks, and
/// drops its result: whether there still is a receiver is not known, and a
/// signal that nobody takes is no failure. The sender is used up.
#[verifier::external_body]
pub(crate) fn send_ready(ready_tx: Sender<Ready>, signal: Ready) {
    let _ = ready_tx.send(signal);
}

/// Looks for a shutdown request with `Receiver::try_recv`, which never
/// blocks. What is found depends on the other end of the channel, so nothing
/// is claimed of it: each of the three outcomes can come back at any time.
#[verifier::external_body]
pub(crate) fn try_recv_shutdown(shutdown_rx: &Receiver<Shutdown>) -> (poll: ShutdownPoll) {
    match shutdown_rx.try_recv() {
        Ok(signal) => ShutdownPoll::Requested(signal),
        Err(TryRecvError::Empty) => ShutdownPoll::Empty,
        Err(TryRecvError::Disconnected) => ShutdownPoll::Disconnected,
    }
}

} // verus!
