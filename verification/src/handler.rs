//! The safe capability interface a consumer implements.
//!
//! One method per generated slot, each defaulting to the not-implemented
//! sentinel when the consumer does not override it.  The records a handler
//! fills are plain-value counterparts of the native ones, so what a method
//! writes is exactly what the native caller reads back.
//!
//! The interface levies two frame obligations on implementors, both forced
//! by the native calling convention: a bounded view's length cannot change
//! (the native caller owns the region), and an absent out-parameter stays
//! absent (there is nothing behind a null pointer to write through).
//! Outcomes must be well-formed: non-negative success payloads, positive
//! error codes.  The adaptation layer adds no locking of its own: under a
//! multi-threaded native loop, safety of concurrent mutable access is the
//! handler implementation's own responsibility.

use vstd::prelude::*;

use crate::outcome::CallOutcome;
use crate::view::ByteView;

verus! {

/// The plain-value status record an attribute query fills.
#[derive(Clone, Copy, PartialEq, Eq, Structural, Debug)]
pub struct StatRecord {
    pub mode: u32,
    pub nlink: u32,
    pub uid: u32,
    pub gid: u32,
    pub size: u64,
    pub blocks: u64,
    pub atime: i64,
    pub mtime: i64,
    pub ctime: i64,
}

/// The plain-value per-open bookkeeping record.
#[derive(Clone, Copy, PartialEq, Eq, Structural, Debug)]
pub struct FileInfo {
    pub flags: i32,
    pub fh: u64,
    pub direct_io: bool,
    pub keep_cache: bool,
}

/// The safe capability interface: one method per generated slot, each
/// defaulting to not-implemented.
pub trait Handler: Sized {
    /// Attribute query: fill the status record for the path.
    fn getattr(&mut self, path: &str, stat: &mut Option<StatRecord>) -> (r: CallOutcome)
        ensures
            r.wf(),
            (*old(stat)) is None ==> (*final(stat)) is None,
    {
        CallOutcome::NotImplemented
    }

    /// Read from the path at the offset into the bounded view; a success
    /// payload is the number of bytes read.
    fn read(
        &mut self,
        path: &str,
        buf: &mut ByteView,
        offset: i64,
        fi: &mut Option<FileInfo>,
    ) -> (r: CallOutcome)
        ensures
            r.wf(),
            final(buf)@.len() == old(buf)@.len(),
            (*old(fi)) is None ==> (*final(fi)) is None,
    {
        CallOutcome::NotImplemented
    }

    /// Write the view's bytes to the path at the offset; a success
    /// payload is the number of bytes written.
    fn write(
        &mut self,
        path: &str,
        data: &ByteView,
        offset: i64,
        fi: &mut Option<FileInfo>,
    ) -> (r: CallOutcome)
        ensures
            r.wf(),
            (*old(fi)) is None ==> (*final(fi)) is None,
    {
        CallOutcome::NotImplemented
    }

    /// Flush buffered state for the path.
    fn flush(&mut self, path: &str, fi: &mut Option<FileInfo>) -> (r: CallOutcome)
        ensures
            r.wf(),
            (*old(fi)) is None ==> (*final(fi)) is None,
    {
        CallOutcome::NotImplemented
    }

    /// Remove the path.
    fn unlink(&mut self, path: &str) -> (r: CallOutcome)
        ensures
            r.wf(),
    {
        CallOutcome::NotImplemented
    }
}

} // verus!
