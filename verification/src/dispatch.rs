//! The raw entry-point tier and the fallback coordinator.
//!
//! One shim stands behind every wired slot.  On a call-in it runs the
//! entry conversions, recovers the handler from the context, dispatches to
//! the capability method, runs the exit conversion, and — when the method
//! signals not-implemented — hands the call to the fallback coordinator
//! instead of returning directly.
//!
//! The coordinator is a small state machine.  `Dispatched` goes straight
//! to `Returned` for success or a genuine failure.  On the sentinel it
//! passes `NotImplemented` and `Delegating`: a transient table is built as
//! a working copy of the live one with exactly the triggering slot
//! cleared, scoped to this single call and reusing the same opaque
//! handle.  `Delegated` stands for the native default invoked through
//! that transient session, whose teardown is its consumption here; its
//! result becomes the call's result (`Returned`).  The live table is
//! never mutated, so the next call-in sees it exactly as before.

use vstd::prelude::*;
use vstd::utf8::valid_utf8;

use crate::context::{Context, OpaqueHandle};
use crate::handler::Handler;
use crate::ops::{HandlerTable, OpId};
use crate::outcome::{AdapterError, CallOutcome, ENCODING_ERRNO};
use crate::text::marshal_text;
use crate::view::ByteView;
use crate::handler::{FileInfo, StatRecord};

verus! {

/// One native call-in, with its arguments already modeled as plain
/// values: a path as the bytes behind its narrow-string pointer, a
/// (pointer, length) pair as a bounded view, an arbitrary pointer as an
/// optional record.
pub enum CallIn {
    Getattr { path: Vec<u8>, stat: Option<StatRecord> },
    Read { path: Vec<u8>, buf: ByteView, offset: i64, fi: Option<FileInfo> },
    Write { path: Vec<u8>, data: ByteView, offset: i64, fi: Option<FileInfo> },
    Flush { path: Vec<u8>, fi: Option<FileInfo> },
    Unlink { path: Vec<u8> },
}

impl CallIn {
    /// The operation this call-in addresses.
    pub open spec fn op(self) -> OpId {
        match self {
            CallIn::Getattr { .. } => OpId::Getattr,
            CallIn::Read { .. } => OpId::Read,
            CallIn::Write { .. } => OpId::Write,
            CallIn::Flush { .. } => OpId::Flush,
            CallIn::Unlink { .. } => OpId::Unlink,
        }
    }

    /// The bytes of the call's path argument.
    pub open spec fn path(self) -> Seq<u8> {
        match self {
            CallIn::Getattr { path, .. } => path@,
            CallIn::Read { path, .. } => path@,
            CallIn::Write { path, .. } => path@,
            CallIn::Flush { path, .. } => path@,
            CallIn::Unlink { path, .. } => path@,
        }
    }
}

/// What one call-in leaves unchanged: the variant, every input argument,
/// and a read buffer's length; only handler-written output (a filled
/// record, overwritten view bytes) may differ, and an absent
/// out-parameter stays absent.
pub open spec fn spec_frame(pre: CallIn, post: CallIn) -> bool {
    match (pre, post) {
        (CallIn::Getattr { path: p1, stat: s1 }, CallIn::Getattr { path: p2, stat: s2 }) => {
            &&& p1@ == p2@
            &&& (s1 is None ==> s2 is None)
        },
        (
            CallIn::Read { path: p1, buf: b1, offset: o1, fi: f1 },
            CallIn::Read { path: p2, buf: b2, offset: o2, fi: f2 },
        ) => {
            &&& p1@ == p2@
            &&& o1 == o2
            &&& b1@.len() == b2@.len()
            &&& (f1 is None ==> f2 is None)
        },
        (
            CallIn::Write { path: p1, data: d1, offset: o1, fi: f1 },
            CallIn::Write { path: p2, data: d2, offset: o2, fi: f2 },
        ) => {
            &&& p1@ == p2@
            &&& d1@ == d2@
            &&& o1 == o2
            &&& (f1 is None ==> f2 is None)
        },
        (CallIn::Flush { path: p1, fi: f1 }, CallIn::Flush { path: p2, fi: f2 }) => {
            &&& p1@ == p2@
            &&& (f1 is None ==> f2 is None)
        },
        (CallIn::Unlink { path: p1 }, CallIn::Unlink { path: p2 }) => p1@ == p2@,
        _ => false,
    }
}

/// An untouched call-in satisfies its own frame.
pub proof fn lemma_frame_refl(c: CallIn)
    ensures
        spec_frame(c, c),
{
    match c {
        CallIn::Getattr { .. } => {},
        CallIn::Read { .. } => {},
        CallIn::Write { .. } => {},
        CallIn::Flush { .. } => {},
        CallIn::Unlink { .. } => {},
    }
}

/// The transient delegation session: the one slot to defer, a working
/// copy of the handler table with exactly that slot cleared, and the same
/// opaque handle the live session uses.  The original, unconverted native
/// arguments travel back beside it, in the call-in the shim returns.  It
/// exists for one call: its consumption is its teardown.
#[derive(PartialEq, Eq, Structural, Debug)]
pub struct DelegationPlan {
    pub op: OpId,
    pub table: HandlerTable,
    pub tag: u64,
}

/// How one call-in is resolved.
#[derive(PartialEq, Eq, Structural, Debug)]
pub enum CallStep {
    /// The shim's result, already in the native return convention.
    Completed { ret: i32 },
    /// The handler declined: defer this single operation to the native
    /// library's own default through the transient session.
    Delegate { plan: DelegationPlan },
    /// The slot is not wired: the native library's own built-in behavior
    /// applies directly and the adaptation layer plays no part.
    Unhandled,
}

/// The fallback coordinator's states for one call.
pub enum FallbackState {
    /// The shim has dispatched to the capability method.
    Dispatched,
    /// The method returned the not-implemented sentinel.
    NotImplemented,
    /// The transient table is being built.
    Delegating,
    /// The native default has been invoked through the transient session.
    Delegated,
    /// The result is back with the original native caller.
    Returned,
}

/// The coordinator's transition relation, driven by the dispatch
/// outcome.
pub open spec fn spec_fallback_next(s: FallbackState, outcome: CallOutcome) -> FallbackState {
    match s {
        FallbackState::Dispatched => if outcome is NotImplemented {
            FallbackState::NotImplemented
        } else {
            FallbackState::Returned
        },
        FallbackState::NotImplemented => FallbackState::Delegating,
        FallbackState::Delegating => FallbackState::Delegated,
        FallbackState::Delegated => FallbackState::Returned,
        FallbackState::Returned => FallbackState::Returned,
    }
}

/// Success or a genuine failure returns directly, without delegation.
pub proof fn lemma_direct_path(outcome: CallOutcome)
    requires
        !(outcome is NotImplemented),
    ensures
        spec_fallback_next(FallbackState::Dispatched, outcome) == FallbackState::Returned,
{
}

/// The sentinel walks the whole delegation chain and still ends with the
/// result returned to the original caller.
pub proof fn lemma_delegation_path(outcome: CallOutcome)
    requires
        outcome is NotImplemented,
    ensures
        spec_fallback_next(FallbackState::Dispatched, outcome) == FallbackState::NotImplemented,
        spec_fallback_next(FallbackState::NotImplemented, outcome) == FallbackState::Delegating,
        spec_fallback_next(FallbackState::Delegating, outcome) == FallbackState::Delegated,
        spec_fallback_next(FallbackState::Delegated, outcome) == FallbackState::Returned,
{
}

/// What the coordinator makes of a dispatch outcome: success and failure
/// complete with their native encoding; the sentinel becomes a delegation
/// plan whose transient table clears exactly the triggering slot.
pub open spec fn spec_coordinate(
    outcome: CallOutcome,
    table: HandlerTable,
    op: OpId,
    tag: u64,
) -> CallStep {
    match outcome {
        CallOutcome::Success(n) => CallStep::Completed { ret: n },
        CallOutcome::Failed(e) => CallStep::Completed { ret: (-(e as int)) as i32 },
        CallOutcome::NotImplemented => CallStep::Delegate {
            plan: DelegationPlan { op, table: table.spec_clear(op), tag },
        },
    }
}

/// A successful call through a wired shim completes with exactly the
/// handler's declared success payload, whatever the table, slot or
/// session: the exit conversion adds and removes nothing.
pub proof fn lemma_success_payload_exact(n: i32, table: HandlerTable, op: OpId, tag: u64)
    ensures
        spec_coordinate(CallOutcome::Success(n), table, op, tag) == (CallStep::Completed {
            ret: n,
        }),
{
}

/// The not-implemented sentinel builds a transient table that differs
/// from the live one in exactly the triggering slot, and reuses the live
/// session's opaque handle; the live table itself is no part of the
/// plan.
pub proof fn lemma_sentinel_clears_exactly_one_slot(
    outcome: CallOutcome,
    table: HandlerTable,
    op: OpId,
    tag: u64,
)
    requires
        outcome is NotImplemented,
    ensures
        spec_coordinate(outcome, table, op, tag) matches CallStep::Delegate { plan }
            && plan.op == op && plan.tag == tag && !plan.table.spec_wired(op) && (forall|
            other: OpId,
        |
            other != op ==> plan.table.spec_wired(other) == table.spec_wired(other)),
{
    let plan = DelegationPlan { op, table: table.spec_clear(op), tag };
    assert forall|other: OpId| other != op implies plan.table.spec_wired(other)
        == table.spec_wired(other) by {
        match other {
            OpId::Getattr => {},
            OpId::Read => {},
            OpId::Write => {},
            OpId::Flush => {},
            OpId::Unlink => {},
        }
    }
    assert(!plan.table.spec_wired(op)) by {
        match op {
            OpId::Getattr => {},
            OpId::Read => {},
            OpId::Write => {},
            OpId::Flush => {},
            OpId::Unlink => {},
        }
    }
}

/// The fallback coordinator.  A success completes with exactly the
/// handler's payload; a failure completes with the negated error code;
/// the not-implemented sentinel becomes a delegation plan and is never
/// returned natively as it stands.
pub fn coordinate(outcome: &CallOutcome, table: &HandlerTable, op: OpId, tag: u64) -> (step:
    CallStep)
    requires
        outcome.wf(),
    ensures
        step == spec_coordinate(*outcome, *table, op, tag),
        step is Completed <==> spec_fallback_next(FallbackState::Dispatched, *outcome)
            == FallbackState::Returned,
        step is Delegate <==> spec_fallback_next(FallbackState::Dispatched, *outcome)
            == FallbackState::NotImplemented,
        (*outcome) matches CallOutcome::Success(n) ==> step == (CallStep::Completed { ret: n }),
        (*outcome) matches CallOutcome::Failed(e) ==> step == (CallStep::Completed {
            ret: (-(e as int)) as i32,
        }),
        outcome is NotImplemented ==> (step matches CallStep::Delegate { plan } && plan.op == op
            && plan.tag == tag && !plan.table.spec_wired(op) && (forall|other: OpId|
            other != op ==> plan.table.spec_wired(other) == table.spec_wired(other))),
{
    match outcome {
        CallOutcome::Success(n) => CallStep::Completed { ret: *n },
        CallOutcome::Failed(e) => CallStep::Completed { ret: -*e },
        CallOutcome::NotImplemented => CallStep::Delegate {
            plan: DelegationPlan { op, table: table.cleared(op), tag },
        },
    }
}

/// Tears the transient session down and hands the native default's
/// result back to the original caller, unchanged.  Consuming the plan is
/// the teardown: it cannot outlive the one call on any path.
pub fn finish_delegation(_plan: DelegationPlan, native_ret: i32) -> (ret: i32)
    ensures
        ret == native_ret,
{
    native_ret
}

/// The generated shim behind a wired slot, for every operation: entry
/// marshaling, dispatch to the capability method, exit conversion, and
/// the fallback coordinator on the sentinel.
///
/// The live table is never touched, whatever path the call takes: every
/// concurrent call-in against the same context reads the same wired set.
/// A call-in for an unwired slot is no business of the adaptation layer
/// and comes back `Unhandled` with nothing changed.  A path that does not
/// decode aborts the single call with the distinguished encoding code.
pub fn handle_call<H: Handler>(ctx: &mut Context<H>, call: CallIn) -> (r: (CallIn, CallStep))
    ensures
        final(ctx).table == old(ctx).table,
        final(ctx).tag == old(ctx).tag,
        final(ctx).live == old(ctx).live,
        r.0.op() == call.op(),
        spec_frame(call, r.0),
        r.1 is Unhandled <==> !old(ctx).table.spec_wired(call.op()),
        !old(ctx).table.spec_wired(call.op()) ==> r.0 == call && *final(ctx) == *old(ctx),
        old(ctx).table.spec_wired(call.op()) && !valid_utf8(call.path()) ==> r.1
            == spec_coordinate(
            CallOutcome::Failed(ENCODING_ERRNO),
            old(ctx).table,
            call.op(),
            old(ctx).tag,
        ) && r.0 == call && *final(ctx) == *old(ctx),
        old(ctx).table.spec_wired(call.op()) ==> exists|o: CallOutcome|
            o.wf() && r.1 == spec_coordinate(o, old(ctx).table, call.op(), old(ctx).tag),
        r.1 matches CallStep::Delegate { plan } ==> {
            &&& old(ctx).table.spec_wired(call.op())
            &&& plan.op == call.op()
            &&& plan.table == old(ctx).table.spec_clear(call.op())
            &&& !plan.table.spec_wired(call.op())
            &&& plan.tag == old(ctx).tag
        },
{
    let tag = ctx.tag;
    let op = match &call {
        CallIn::Getattr { .. } => OpId::Getattr,
        CallIn::Read { .. } => OpId::Read,
        CallIn::Write { .. } => OpId::Write,
        CallIn::Flush { .. } => OpId::Flush,
        CallIn::Unlink { .. } => OpId::Unlink,
    };
    if !ctx.table.wired(op) {
        proof {
            lemma_frame_refl(call);
        }
        return (call, CallStep::Unhandled);
    }
    match call {
        CallIn::Getattr { path, mut stat } => {
            match marshal_text(&path) {
                Err(_) => {
                    let outcome = CallOutcome::Failed(ENCODING_ERRNO);
                    let step = coordinate(&outcome, &ctx.table, OpId::Getattr, tag);
                    proof {
                        assert(call.op() == OpId::Getattr);
                        assert(outcome.wf());
                        assert(step == spec_coordinate(
                            CallOutcome::Failed(ENCODING_ERRNO),
                            old(ctx).table,
                            call.op(),
                            old(ctx).tag,
                        ));
                        assert(exists|o: CallOutcome|
                            o.wf() && step == spec_coordinate(
                                o,
                                old(ctx).table,
                                call.op(),
                                old(ctx).tag,
                            ));
                    }
                    (CallIn::Getattr { path, stat }, step)
                },
                Ok(text) => {
                    let outcome = ctx.handler.getattr(text.as_str(), &mut stat);
                    let step = coordinate(&outcome, &ctx.table, OpId::Getattr, tag);
                    proof {
                        assert(call.op() == OpId::Getattr);
                        assert(outcome.wf() && step == spec_coordinate(
                            outcome,
                            old(ctx).table,
                            call.op(),
                            old(ctx).tag,
                        ));
                        assert(exists|o: CallOutcome|
                            o.wf() && step == spec_coordinate(
                                o,
                                old(ctx).table,
                                call.op(),
                                old(ctx).tag,
                            ));
                    }
                    (CallIn::Getattr { path, stat }, step)
                },
            }
        },
        CallIn::Read { path, mut buf, offset, mut fi } => {
            match marshal_text(&path) {
                Err(_) => {
                    let outcome = CallOutcome::Failed(ENCODING_ERRNO);
                    let step = coordinate(&outcome, &ctx.table, OpId::Read, tag);
                    proof {
                        assert(call.op() == OpId::Read);
                        assert(outcome.wf());
                        assert(step == spec_coordinate(
                            CallOutcome::Failed(ENCODING_ERRNO),
                            old(ctx).table,
                            call.op(),
                            old(ctx).tag,
                        ));
                        assert(exists|o: CallOutcome|
                            o.wf() && step == spec_coordinate(
                                o,
                                old(ctx).table,
                                call.op(),
                                old(ctx).tag,
                            ));
                    }
                    (CallIn::Read { path, buf, offset, fi }, step)
                },
                Ok(text) => {
                    let outcome = ctx.handler.read(text.as_str(), &mut buf, offset, &mut fi);
                    let step = coordinate(&outcome, &ctx.table, OpId::Read, tag);
                    proof {
                        assert(call.op() == OpId::Read);
                        assert(outcome.wf() && step == spec_coordinate(
                            outcome,
                            old(ctx).table,
                            call.op(),
                            old(ctx).tag,
                        ));
                        assert(exists|o: CallOutcome|
                            o.wf() && step == spec_coordinate(
                                o,
                                old(ctx).table,
                                call.op(),
                                old(ctx).tag,
                            ));
                    }
                    (CallIn::Read { path, buf, offset, fi }, step)
                },
            }
        },
        CallIn::Write { path, data, offset, mut fi } => {
            match marshal_text(&path) {
                Err(_) => {
                    let outcome = CallOutcome::Failed(ENCODING_ERRNO);
                    let step = coordinate(&outcome, &ctx.table, OpId::Write, tag);
                    proof {
                        assert(call.op() == OpId::Write);
                        assert(outcome.wf());
                        assert(step == spec_coordinate(
                            CallOutcome::Failed(ENCODING_ERRNO),
                            old(ctx).table,
                            call.op(),
                            old(ctx).tag,
                        ));
                        assert(exists|o: CallOutcome|
                            o.wf() && step == spec_coordinate(
                                o,
                                old(ctx).table,
                                call.op(),
                                old(ctx).tag,
                            ));
                    }
                    (CallIn::Write { path, data, offset, fi }, step)
                },
                Ok(text) => {
                    let outcome = ctx.handler.write(text.as_str(), &data, offset, &mut fi);
                    let step = coordinate(&outcome, &ctx.table, OpId::Write, tag);
                    proof {
                        assert(call.op() == OpId::Write);
                        assert(outcome.wf() && step == spec_coordinate(
                            outcome,
                            old(ctx).table,
                            call.op(),
                            old(ctx).tag,
                        ));
                        assert(exists|o: CallOutcome|
                            o.wf() && step == spec_coordinate(
                                o,
                                old(ctx).table,
                                call.op(),
                                old(ctx).tag,
                            ));
                    }
                    (CallIn::Write { path, data, offset, fi }, step)
                },
            }
        },
        CallIn::Flush { path, mut fi } => {
            match marshal_text(&path) {
                Err(_) => {
                    let outcome = CallOutcome::Failed(ENCODING_ERRNO);
                    let step = coordinate(&outcome, &ctx.table, OpId::Flush, tag);
                    proof {
                        assert(call.op() == OpId::Flush);
                        assert(outcome.wf());
                        assert(step == spec_coordinate(
                            CallOutcome::Failed(ENCODING_ERRNO),
                            old(ctx).table,
                            call.op(),
                            old(ctx).tag,
                        ));
                        assert(exists|o: CallOutcome|
                            o.wf() && step == spec_coordinate(
                                o,
                                old(ctx).table,
                                call.op(),
                                old(ctx).tag,
                            ));
                    }
                    (CallIn::Flush { path, fi }, step)
                },
                Ok(text) => {
                    let outcome = ctx.handler.flush(text.as_str(), &mut fi);
                    let step = coordinate(&outcome, &ctx.table, OpId::Flush, tag);
                    proof {
                        assert(call.op() == OpId::Flush);
                        assert(outcome.wf() && step == spec_coordinate(
                            outcome,
                            old(ctx).table,
                            call.op(),
                            old(ctx).tag,
                        ));
                        assert(exists|o: CallOutcome|
                            o.wf() && step == spec_coordinate(
                                o,
                                old(ctx).table,
                                call.op(),
                                old(ctx).tag,
                            ));
                    }
                    (CallIn::Flush { path, fi }, step)
                },
            }
        },
        CallIn::Unlink { path } => {
            match marshal_text(&path) {
                Err(_) => {
                    let outcome = CallOutcome::Failed(ENCODING_ERRNO);
                    let step = coordinate(&outcome, &ctx.table, OpId::Unlink, tag);
                    proof {
                        assert(call.op() == OpId::Unlink);
                        assert(outcome.wf());
                        assert(step == spec_coordinate(
                            CallOutcome::Failed(ENCODING_ERRNO),
                            old(ctx).table,
                            call.op(),
                            old(ctx).tag,
                        ));
                        assert(exists|o: CallOutcome|
                            o.wf() && step == spec_coordinate(
                                o,
                                old(ctx).table,
                                call.op(),
                                old(ctx).tag,
                            ));
                    }
                    (CallIn::Unlink { path }, step)
                },
                Ok(text) => {
                    let outcome = ctx.handler.unlink(text.as_str());
                    let step = coordinate(&outcome, &ctx.table, OpId::Unlink, tag);
                    proof {
                        assert(call.op() == OpId::Unlink);
                        assert(outcome.wf() && step == spec_coordinate(
                            outcome,
                            old(ctx).table,
                            call.op(),
                            old(ctx).tag,
                        ));
                        assert(exists|o: CallOutcome|
                            o.wf() && step == spec_coordinate(
                                o,
                                old(ctx).table,
                                call.op(),
                                old(ctx).tag,
                            ));
                    }
                    (CallIn::Unlink { path }, step)
                },
            }
        },
    }
}

/// The checked boundary crossing: the opaque handle the native caller
/// passed back must recover the live context, or the single call is
/// aborted with a corrupted-context fault before any handler state is
/// touched.  A handle never recovers a retired session.
pub fn dispatch_via<H: Handler>(ctx: &mut Context<H>, handle: &OpaqueHandle, call: CallIn) -> (r:
    (CallIn, Result<CallStep, AdapterError>))
    ensures
        final(ctx).table == old(ctx).table,
        final(ctx).tag == old(ctx).tag,
        final(ctx).live == old(ctx).live,
        r.0.op() == call.op(),
        spec_frame(call, r.0),
        r.1 is Err <==> !old(ctx).spec_recovers(*handle),
        r.1 is Err ==> r.1 == Err::<CallStep, AdapterError>(AdapterError::ContextCorrupted)
            && r.0 == call && *final(ctx) == *old(ctx),
        r.1 matches Ok(step) ==> {
            &&& (step is Unhandled <==> !old(ctx).table.spec_wired(call.op()))
            &&& (step is Unhandled ==> r.0 == call && *final(ctx) == *old(ctx))
            &&& (old(ctx).table.spec_wired(call.op()) ==> exists|o: CallOutcome|
                o.wf() && step == spec_coordinate(o, old(ctx).table, call.op(), old(ctx).tag))
            &&& (step matches CallStep::Delegate { plan } ==> plan.op == call.op() && plan.table
                == old(ctx).table.spec_clear(call.op()) && plan.tag == old(ctx).tag)
        },
{
    if !ctx.live || handle.tag != ctx.tag {
        proof {
            lemma_frame_refl(call);
        }
        return (call, Err(AdapterError::ContextCorrupted));
    }
    let (back, step) = handle_call(ctx, call);
    (back, Ok(step))
}

} // verus!
