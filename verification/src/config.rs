//! What the server is configured with.

use vstd::prelude::*;

verus! {

/// Configuration of the server: where it listens and whether it logs each
/// access.
///
/// The listen address is held in its textual form (such as `127.0.0.1:9582`)
/// and is never interpreted here: it is handed on for binding and shown in
/// messages.
#[must_use]
#[derive(Debug)]
pub struct Args {
    /// Bind address for the server.
    listen_address: String,
    /// Log all accesses.
    log_accesses: bool,
}

/// Mathematical model of [`Args`].
pub struct ArgsView {
    pub listen_address: Seq<char>,
    pub log_accesses: bool,
}

impl View for Args {
    type V = ArgsView;

    closed spec fn view(&self) -> ArgsView {
        ArgsView { listen_address: self.listen_address@, log_accesses: self.log_accesses }
    }
}

impl Args {
    /// Configures listening on the given address, without access logging.
    pub fn listen(listen_address: String) -> (args: Args)
        ensures
            args@ == (ArgsView { listen_address: listen_address@, log_accesses: false }),
    {
        Args { listen_address, log_accesses: false }
    }

    /// Enables printing a message on all accesses.
    pub fn log_accesses(self) -> (args: Args)
        ensures
            args@ == (ArgsView { listen_address: self@.listen_address, log_accesses: true }),
    {
        let mut args = self;
        args.log_accesses = true;
        args
    }

    /// The address to listen on.
    pub fn listen_address(&self) -> (address: &str)
        ensures
            address@ == self@.listen_address,
    {
        self.listen_address.as_str()
    }

    /// Whether each access is logged.
    pub fn logs_accesses(&self) -> (enabled: bool)
        ensures
            enabled == self@.log_accesses,
    {
        self.log_accesses
    }
}

} // verus!
