//! The HTTP endpoints that the virtual machine offers.

use vstd::prelude::*;

verus! {

/// Lock that the engine takes while an endpoint serves a request.
#[derive(Clone, Copy, Debug, PartialEq, Eq, Structural)]
pub enum LockOptions {
    WriteLock,
    ReadLock,
    NoLock,
}

/// An endpoint.
#[derive(Debug, PartialEq, Eq)]
pub struct HttpHandler<H> {
    pub lock_option: LockOptions,
    pub handler: H,
    pub server_addr: Option<String>,
}

/// A header of a request or of a response.
#[derive(Debug, PartialEq, Eq)]
pub struct Element {
    pub key: String,
    pub values: Vec<String>,
}

/// The endpoints of a virtual machine, each under its own path.
#[derive(Debug, PartialEq, Eq)]
pub struct Handlers<H> {
    pub entries: Vec<(String, HttpHandler<H>)>,
}

impl<H> Handlers<H> {
    /// No path occurs twice.
    pub open spec fn well_formed(self) -> bool {
        forall|i: int, j: int|
            0 <= i < j < self.entries@.len() ==> #[trigger] self.entries@[i].0@
                != #[trigger] self.entries@[j].0@
    }

    /// There is one endpoint: it lies under `path`, is served under the write
    /// lock, and has no server of its own yet.
    pub open spec fn is_single(self, path: Seq<char>) -> bool {
        &&& self.entries@.len() == 1
        &&& self.entries@[0].0@ == path
        &&& self.entries@[0].1.lock_option == LockOptions::WriteLock
        &&& self.entries@[0].1.server_addr is None
    }

    /// Returns `handler` under `path`, as the only endpoint.
    pub fn single(path: &str, handler: H) -> (handlers: Handlers<H>)
        ensures
            handlers.well_formed(),
            handlers.is_single(path@),
            handlers.entries@[0].1.handler == handler,
    {
        let mut entries: Vec<(String, HttpHandler<H>)> = Vec::new();
        entries.push(
            (
                path.to_owned(),
                HttpHandler { lock_option: LockOptions::WriteLock, handler, server_addr: None },
            ),
        );
        Handlers { entries }
    }
}

} // verus!
