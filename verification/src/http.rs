//! Plain-value models of what the server reads of a request and of what it
//! sends back.

use crate::text::occurs_between;
use crate::text::occurs_in;
use vstd::prelude::*;
use vstd::string::*;

verus! {

/// The status of every reply.
pub const HTTP_STATUS_OK: u32 = 200;

/// What the server reads of an accepted request: only what the access log
/// shows. Nothing of it influences the reply.
#[derive(Debug, PartialEq, Eq)]
pub struct Request {
    /// The request method, as sent (`GET`, `POST`, ...).
    pub method: String,
    /// The requested path, as sent.
    pub path: String,
    /// The peer's socket address in its textual form, where it is known.
    pub peer: Option<String>,
}

/// Mathematical model of a [`Request`].
pub struct RequestView {
    pub method: Seq<char>,
    pub path: Seq<char>,
    pub peer: Option<Seq<char>>,
}

impl View for Request {
    type V = RequestView;

    open spec fn view(&self) -> RequestView {
        RequestView {
            method: self.method@,
            path: self.path@,
            peer: match self.peer {
                Some(address) => Some(address@),
                None => None,
            },
        }
    }
}

impl RequestView {
    /// How the peer shows in the access log: `Some(<address>)` or `None`.
    pub open spec fn peer_text(self) -> Seq<char> {
        match self.peer {
            Some(address) => "Some("@ + address + ")"@,
            None => "None"@,
        }
    }

    /// The access-log line of the request:
    /// `Request(<method> <path> from <peer>)`.
    pub open spec fn access_line(self) -> Seq<char> {
        "Request("@ + self.method + " "@ + self.path + " from "@ + self.peer_text() + ")"@
    }
}

impl Request {
    /// A request with the given method and path, from the given peer.
    pub fn new(method: String, path: String, peer: Option<String>) -> (request: Request)
        ensures
            request.method == method,
            request.path == path,
            request.peer == peer,
    {
        Request { method, path, peer }
    }

    /// The line that the access log shows for this request.
    pub fn access_line(&self) -> (line: String)
        ensures
            line@ == self@.access_line(),
    {
        let mut line = String::from_str("Request(");
        line.append(self.method.as_str());
        line.append(" ");
        line.append(self.path.as_str());
        line.append(" from ");
        match &self.peer {
            Some(address) => {
                line.append("Some(");
                line.append(address.as_str());
                line.append(")");
            },
            None => {
                line.append("None");
            },
        }
        line.append(")");
        line
    }
}

/// The access-log line of a request shows its method, its path and, where it
/// is known, the address of its peer.
pub proof fn access_line_names_request(request: RequestView)
    ensures
        occurs_in(request.method, request.access_line()),
        occurs_in(request.path, request.access_line()),
        request.peer matches Some(address) ==> occurs_in(address, request.access_line()),
{
    let line = request.access_line();
    let open = "Request("@;
    let gap = " "@;
    let from = " from "@;
    let close = ")"@;
    let peer = request.peer_text();
    assert(line =~= open + request.method + (gap + request.path + from + peer + close));
    occurs_between(open, request.method, gap + request.path + from + peer + close);
    assert(line =~= (open + request.method + gap) + request.path + (from + peer + close));
    occurs_between(open + request.method + gap, request.path, from + peer + close);
    match request.peer {
        Some(address) => {
            let before = open + request.method + gap + request.path + from + "Some("@;
            assert(line =~= before + address + (")"@ + close));
            occurs_between(before, address, ")"@ + close);
        },
        None => {},
    }
}

/// A reply: its status code and its body.
#[derive(Debug, PartialEq, Eq)]
pub struct Response {
    /// The HTTP status code.
    pub status: u32,
    /// The bytes of the body.
    pub body: Vec<u8>,
}

/// Mathematical model of a [`Response`].
pub struct ResponseView {
    pub status: u32,
    pub body: Seq<u8>,
}

impl View for Response {
    type V = ResponseView;

    open spec fn view(&self) -> ResponseView {
        ResponseView { status: self.status, body: self.body@ }
    }
}

impl ResponseView {
    /// The reply with the given status and no body.
    pub open spec fn empty(status: u32) -> ResponseView {
        ResponseView { status, body: Seq::empty() }
    }

    /// The one reply that the server ever gives: status 200, no body.
    pub open spec fn acknowledgement() -> ResponseView {
        ResponseView::empty(HTTP_STATUS_OK)
    }
}

impl Response {
    /// Builds a reply with the given status code and an empty body.
    pub fn empty(status: u32) -> (response: Response)
        ensures
            response@ == ResponseView::empty(status),
    {
        Response { status, body: Vec::new() }
    }
}

} // verus!
