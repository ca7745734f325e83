//! The failures that the server tells apart.

use crate::text::occurs_between;
use crate::text::occurs_in;
use vstd::prelude::*;
use vstd::string::*;

verus! {

/// What failed.
#[derive(Debug, PartialEq, Eq)]
pub enum ErrorKind {
    /// The listen address could not be bound. This ends the run.
    BindFailure { listen_address: String },
    /// Receiving from a peer failed. The run goes on.
    ReceiveFailure,
    /// Sending the reply to a peer failed. The run goes on.
    SendFailure,
}

/// Mathematical model of an [`ErrorKind`].
pub enum ErrorKindView {
    BindFailure { listen_address: Seq<char> },
    ReceiveFailure,
    SendFailure,
}

impl View for ErrorKind {
    type V = ErrorKindView;

    open spec fn view(&self) -> ErrorKindView {
        match self {
            ErrorKind::BindFailure { listen_address } => ErrorKindView::BindFailure {
                listen_address: listen_address@,
            },
            ErrorKind::ReceiveFailure => ErrorKindView::ReceiveFailure,
            ErrorKind::SendFailure => ErrorKindView::SendFailure,
        }
    }
}

impl ErrorKindView {
    /// Whether a failure of this kind ends the run. Only a failed bind does.
    pub open spec fn is_fatal(self) -> bool {
        self is BindFailure
    }

    /// The message shown for a failure of this kind.
    pub open spec fn message(self) -> Seq<char> {
        match self {
            ErrorKindView::BindFailure { listen_address } => "failed to bind HTTP server to "@
                + listen_address,
            ErrorKindView::ReceiveFailure => "failed to receive from client"@,
            ErrorKindView::SendFailure => "failed to send to client"@,
        }
    }
}

impl Clone for ErrorKind {
    fn clone(&self) -> (copy: Self)
        ensures
            copy == *self,
    {
        match self {
            ErrorKind::BindFailure { listen_address } => ErrorKind::BindFailure {
                listen_address: listen_address.clone(),
            },
            ErrorKind::ReceiveFailure => ErrorKind::ReceiveFailure,
            ErrorKind::SendFailure => ErrorKind::SendFailure,
        }
    }
}

impl ErrorKind {
    /// Whether a failure of this kind ends the run.
    pub fn is_fatal(&self) -> (fatal: bool)
        ensures
            fatal == self@.is_fatal(),
    {
        match self {
            ErrorKind::BindFailure { .. } => true,
            ErrorKind::ReceiveFailure => false,
            ErrorKind::SendFailure => false,
        }
    }

    /// The message shown for a failure of this kind.
    pub fn message(&self) -> (text: String)
        ensures
            text@ == self@.message(),
    {
        match self {
            ErrorKind::BindFailure { listen_address } => {
                let mut text = String::from_str("failed to bind HTTP server to ");
                text.append(listen_address.as_str());
                text
            },
            ErrorKind::ReceiveFailure => String::from_str("failed to receive from client"),
            ErrorKind::SendFailure => String::from_str("failed to send to client"),
        }
    }
}

/// Error establishing the server or communicating with a peer: what failed,
/// and the text of the underlying cause.
#[derive(Debug, PartialEq, Eq)]
pub struct Error {
    kind: ErrorKind,
    cause: String,
}

/// Mathematical model of an [`Error`].
pub struct ErrorView {
    pub kind: ErrorKindView,
    pub cause: Seq<char>,
}

impl View for Error {
    type V = ErrorView;

    closed spec fn view(&self) -> ErrorView {
        ErrorView { kind: self.kind@, cause: self.cause@ }
    }
}

impl ErrorView {
    /// The failure to bind `listen_address`.
    pub open spec fn bind_failure(listen_address: Seq<char>, cause: Seq<char>) -> ErrorView {
        ErrorView { kind: ErrorKindView::BindFailure { listen_address }, cause }
    }

    /// The failure to receive from a peer.
    pub open spec fn receive_failure(cause: Seq<char>) -> ErrorView {
        ErrorView { kind: ErrorKindView::ReceiveFailure, cause }
    }

    /// The failure to send to a peer.
    pub open spec fn send_failure(cause: Seq<char>) -> ErrorView {
        ErrorView { kind: ErrorKindView::SendFailure, cause }
    }

    /// The message shown for the error. It names what failed, not the cause.
    pub open spec fn message(self) -> Seq<char> {
        self.kind.message()
    }
}

impl Clone for Error {
    fn clone(&self) -> (copy: Self)
        ensures
            copy == *self,
    {
        Error { kind: self.kind.clone(), cause: self.cause.clone() }
    }
}

impl Error {
    /// The failure to bind `listen_address`.
    pub fn bind_failure(listen_address: String, cause: String) -> (error: Error)
        ensures
            error@ == ErrorView::bind_failure(listen_address@, cause@),
    {
        Error { kind: ErrorKind::BindFailure { listen_address }, cause }
    }

    /// The failure to receive from a peer.
    pub fn receive_failure(cause: String) -> (error: Error)
        ensures
            error@ == ErrorView::receive_failure(cause@),
    {
        Error { kind: ErrorKind::ReceiveFailure, cause }
    }

    /// The failure to send to a peer.
    pub fn send_failure(cause: String) -> (error: Error)
        ensures
            error@ == ErrorView::send_failure(cause@),
    {
        Error { kind: ErrorKind::SendFailure, cause }
    }

    /// What failed.
    pub fn kind(&self) -> (kind: &ErrorKind)
        ensures
            kind@ == self@.kind,
    {
        &self.kind
    }

    /// The text of the underlying cause.
    pub fn cause(&self) -> (cause: &str)
        ensures
            cause@ == self@.cause,
    {
        self.cause.as_str()
    }

    /// Whether the error ends the run.
    pub fn is_fatal(&self) -> (fatal: bool)
        ensures
            fatal == self@.kind.is_fatal(),
    {
        self.kind.is_fatal()
    }

    /// The message shown for the error.
    pub fn message(&self) -> (text: String)
        ensures
            text@ == self@.message(),
    {
        self.kind.message()
    }
}

/// The message of a failed bind names the address that could not be bound.
pub proof fn bind_failure_names_address(listen_address: Seq<char>)
    ensures
        occurs_in(listen_address, (ErrorKindView::BindFailure { listen_address }).message()),
{
    occurs_between("failed to bind HTTP server to "@, listen_address, Seq::<char>::empty());
}

/// The message tells what failed: two kinds with the same message are the
/// same kind, bound address included.
pub proof fn message_determines_kind(a: ErrorKindView, b: ErrorKindView)
    requires
        a.message() == b.message(),
    ensures
        a == b,
{
    let bind = "failed to bind HTTP server to "@;
    let receive = "failed to receive from client"@;
    let send = "failed to send to client"@;
    reveal_strlit("failed to bind HTTP server to ");
    reveal_strlit("failed to receive from client");
    reveal_strlit("failed to send to client");
    assert(receive[10] == 'r');
    assert(send[10] == 's');
    match (a, b) {
        (
            ErrorKindView::BindFailure { listen_address: left },
            ErrorKindView::BindFailure { listen_address: right },
        ) => {
            assert(left =~= (bind + left).skip(30));
            assert(right =~= (bind + right).skip(30));
        },
        _ => {},
    }
}

} // verus!
