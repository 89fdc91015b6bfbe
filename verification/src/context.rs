//! The per-session context and the opaque handle that crosses the native
//! boundary.
//!
//! A context owns exactly one handler instance and the live handler table
//! for one run.  The only thing handed across the native boundary is one
//! opaque handle; the native library passes it back on every call-in, and
//! it is recovered through a checked match on the session tag that fails
//! loudly — a wrong or stale handle is a corrupted-context fault, never a
//! silent continuation with an aliased object.

use vstd::prelude::*;

use crate::ops::HandlerTable;

verus! {

/// The long-lived owner of one session's handler instance and handler
/// table.  It is live from session start until the native loop returns;
/// ending the run retires it, after which no handle recovers it.
pub struct Context<H> {
    /// The one handler instance of this session.
    pub handler: H,
    /// The live handler table of this session.
    pub table: HandlerTable,
    /// The session tag the opaque handle must match.
    pub tag: u64,
    /// Whether the session is still running.
    pub live: bool,
}

/// The opaque value that stands for one session across the native
/// boundary.  Native code cannot look inside it; the adaptation layer
/// only ever matches it against the context it was issued for.
#[derive(Clone, Copy, PartialEq, Eq, Structural, Debug)]
pub struct OpaqueHandle {
    pub tag: u64,
}

impl<H> Context<H> {
    /// Whether this handle recovers this context: the tags match and the
    /// session is still live.
    pub open spec fn spec_recovers(self, handle: OpaqueHandle) -> bool {
        self.live && handle.tag == self.tag
    }
}

} // verus!
