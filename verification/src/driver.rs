//! The runtime driver: everything a run needs before and after the native
//! main loop.
//!
//! Given a handler and the run's argument vector, the driver builds a
//! fresh handler table wiring only the overridden slots, constructs the
//! session context, and hands back the run plan: the table, the argument
//! vector forwarded verbatim and in order, and the one opaque handle the
//! native loop will pass back on every call-in.  When the loop returns,
//! its exit status maps to the run's result: zero is success, anything
//! else a failure carrying that status.

use vstd::prelude::*;

use crate::context::{Context, OpaqueHandle};
use crate::handler::Handler;
use crate::ops::{build_table, HandlerTable, OpId, OverrideSet};

verus! {

/// What the native entry point is invoked with: the wired table, the
/// argument vector, and the opaque handle standing for the session.
pub struct RunPlan {
    pub table: HandlerTable,
    pub argv: Vec<String>,
    pub handle: OpaqueHandle,
}

/// Builds the context and the run plan for one session.  The table wires
/// exactly the overridden slots; the argument vector is forwarded
/// verbatim, in order, with no reinterpretation; the context is live and
/// its handle matches it, and the context's table is the plan's table.
pub fn prepare_run<H: Handler>(handler: H, overrides: &OverrideSet, args: Vec<String>, tag: u64)
    -> (r: (Context<H>, RunPlan))
    ensures
        r.0.table == r.1.table,
        forall|op: OpId| r.1.table.spec_wired(op) <==> overrides.spec_contains(op),
        r.1.argv == args,
        r.0.tag == tag,
        r.1.handle.tag == tag,
        r.0.live,
        r.0.spec_recovers(r.1.handle),
        r.0.handler == handler,
{
    let table = build_table(overrides);
    let ctx = Context { handler, table, tag, live: true };
    let plan = RunPlan { table, argv: args, handle: OpaqueHandle { tag } };
    (ctx, plan)
}

/// Retires the session when the native loop has returned: the handle
/// stops recovering the context, so nothing retained past the run can
/// reach the handler again.  The handler and table are left in place for
/// the owner to reclaim.
pub fn end_run<H: Handler>(ctx: &mut Context<H>)
    ensures
        !final(ctx).live,
        final(ctx).table == old(ctx).table,
        final(ctx).tag == old(ctx).tag,
        final(ctx).handler == old(ctx).handler,
        forall|h: OpaqueHandle| !final(ctx).spec_recovers(h),
{
    ctx.live = false;
}

/// Maps the native loop's exit status to the run's result: a zero status
/// is success, any other status is surfaced as a failure carrying that
/// status.
pub fn interpret_exit(status: i32) -> (r: Result<(), i32>)
    ensures
        r is Ok <==> status == 0,
        r matches Err(e) ==> e == status,
{
    if status == 0 {
        Ok(())
    } else {
        Err(status)
    }
}

} // verus!
