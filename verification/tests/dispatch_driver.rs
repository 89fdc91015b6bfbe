use fuse_bridge::context::OpaqueHandle;
use fuse_bridge::dispatch::{dispatch_via, finish_delegation, handle_call, CallIn, CallStep};
use fuse_bridge::driver::{end_run, interpret_exit, prepare_run};
use fuse_bridge::handler::{FileInfo, Handler, StatRecord};
use fuse_bridge::ops::{build_table, OpId, OverrideSet, TableEntry};
use fuse_bridge::outcome::{AdapterError, CallOutcome};
use fuse_bridge::view::ByteView;

const ATTR: StatRecord = StatRecord {
    mode: 0o100644,
    nlink: 1,
    uid: 1000,
    gid: 100,
    size: 5,
    blocks: 1,
    atime: 7,
    mtime: 8,
    ctime: 9,
};

/// A handler that serves one fixed file: it overrides only the read-side
/// operations and leaves everything else to its defaults.
struct MirrorFs {
    content: Vec<u8>,
}

impl Handler for MirrorFs {
    fn getattr(&mut self, _path: &str, stat: &mut Option<StatRecord>) -> CallOutcome {
        if stat.is_some() {
            *stat = Some(ATTR);
        }
        CallOutcome::Success(0)
    }

    fn read(
        &mut self,
        _path: &str,
        buf: &mut ByteView,
        offset: i64,
        _fi: &mut Option<FileInfo>,
    ) -> CallOutcome {
        let start = offset as usize;
        if start > self.content.len() {
            return CallOutcome::Failed(22);
        }
        let n = (self.content.len() - start).min(buf.len());
        for i in 0..n {
            buf.write(i, self.content[start + i]);
        }
        CallOutcome::Success(n as i32)
    }
}

fn args() -> Vec<String> {
    vec!["prog".to_string(), "/mnt/point".to_string(), "-f".to_string()]
}

fn overrides() -> OverrideSet {
    OverrideSet { getattr: true, read: true, write: true, flush: false, unlink: false }
}

#[test]
fn run_plan_wires_exactly_the_overridden_slots() {
    let (ctx, plan) = prepare_run(MirrorFs { content: b"hello".to_vec() }, &overrides(), args(), 11);
    assert_eq!(plan.argv, args());
    assert_eq!(plan.handle.tag, 11);
    assert!(plan.table.wired(OpId::Getattr));
    assert!(plan.table.wired(OpId::Read));
    assert!(plan.table.wired(OpId::Write));
    assert!(!plan.table.wired(OpId::Flush));
    assert!(!plan.table.wired(OpId::Unlink));
    assert_eq!(ctx.table, plan.table);
}

#[test]
fn unoverridden_slot_stays_unset_and_never_delegates() {
    let table = build_table(&overrides());
    assert_eq!(table.unlink, TableEntry::Unset);
    let (mut ctx, _plan) = prepare_run(MirrorFs { content: Vec::new() }, &overrides(), args(), 1);
    let (_, step) = handle_call(&mut ctx, CallIn::Unlink { path: b"/f".to_vec() });
    // The adaptation layer plays no part: no completion, no delegation.
    assert!(matches!(step, CallStep::Unhandled));
}

#[test]
fn wired_read_returns_the_handler_payload_byte_for_byte() {
    let (mut ctx, _plan) = prepare_run(MirrorFs { content: b"hello".to_vec() }, &overrides(), args(), 1);
    let buf = ByteView::from_pair(vec![0u8; 5], 5);
    let call = CallIn::Read { path: b"/file".to_vec(), buf, offset: 0, fi: None };
    let (back, step) = handle_call(&mut ctx, call);
    assert!(matches!(step, CallStep::Completed { ret: 5 }));
    match back {
        CallIn::Read { buf, .. } => {
            let (bytes, len) = buf.into_pair();
            assert_eq!(len, 5);
            assert_eq!(bytes, b"hello".to_vec());
        }
        _ => panic!("call shape changed"),
    }
}

#[test]
fn wired_read_honors_offset_and_short_buffers() {
    let (mut ctx, _plan) = prepare_run(MirrorFs { content: b"hello".to_vec() }, &overrides(), args(), 1);
    let buf = ByteView::from_pair(vec![0u8; 2], 2);
    let call = CallIn::Read { path: b"/file".to_vec(), buf, offset: 1, fi: None };
    let (back, step) = handle_call(&mut ctx, call);
    assert!(matches!(step, CallStep::Completed { ret: 2 }));
    match back {
        CallIn::Read { buf, .. } => assert_eq!(buf.as_bytes(), &b"el".to_vec()),
        _ => panic!("call shape changed"),
    }
}

#[test]
fn handler_error_codes_surface_negated() {
    let (mut ctx, _plan) = prepare_run(MirrorFs { content: b"hi".to_vec() }, &overrides(), args(), 1);
    let buf = ByteView::from_pair(vec![0u8; 2], 2);
    let call = CallIn::Read { path: b"/file".to_vec(), buf, offset: 9, fi: None };
    let (_, step) = handle_call(&mut ctx, call);
    assert!(matches!(step, CallStep::Completed { ret: -22 }));
}

#[test]
fn declined_write_delegates_to_the_native_default() {
    // The write slot is wired, but the handler leaves the method at its
    // default, so the call signals not-implemented and is delegated.
    let (mut ctx, plan) = prepare_run(MirrorFs { content: b"hello".to_vec() }, &overrides(), args(), 3);
    let table_before = ctx.table;
    let data = ByteView::from_pair(b"xy".to_vec(), 2);
    let call = CallIn::Write { path: b"/file".to_vec(), data, offset: 0, fi: None };
    let (_, step) = handle_call(&mut ctx, call);
    match step {
        CallStep::Delegate { plan: delegation } => {
            assert_eq!(delegation.op, OpId::Write);
            // Same opaque handle as the live session.
            assert_eq!(delegation.tag, plan.handle.tag);
            // The transient table clears exactly the one slot.
            assert!(!delegation.table.wired(OpId::Write));
            assert!(delegation.table.wired(OpId::Read));
            assert!(delegation.table.wired(OpId::Getattr));
            // The native default's no-op success becomes the call's
            // result, not a failure.
            assert_eq!(finish_delegation(delegation, 0), 0);
        }
        _ => panic!("expected delegation"),
    }
    // The live table was never mutated.
    assert_eq!(ctx.table, table_before);
}

#[test]
fn getattr_record_reaches_the_caller_untransformed() {
    let (mut ctx, _plan) = prepare_run(MirrorFs { content: b"hello".to_vec() }, &overrides(), args(), 1);
    let zeroed = StatRecord {
        mode: 0,
        nlink: 0,
        uid: 0,
        gid: 0,
        size: 0,
        blocks: 0,
        atime: 0,
        mtime: 0,
        ctime: 0,
    };
    let call = CallIn::Getattr { path: b"/file".to_vec(), stat: Some(zeroed) };
    let (back, step) = handle_call(&mut ctx, call);
    assert!(matches!(step, CallStep::Completed { ret: 0 }));
    match back {
        CallIn::Getattr { stat, .. } => assert_eq!(stat, Some(ATTR)),
        _ => panic!("call shape changed"),
    }
}

#[test]
fn null_record_pointer_stays_absent() {
    let (mut ctx, _plan) = prepare_run(MirrorFs { content: Vec::new() }, &overrides(), args(), 1);
    let call = CallIn::Getattr { path: b"/file".to_vec(), stat: None };
    let (back, _step) = handle_call(&mut ctx, call);
    match back {
        CallIn::Getattr { stat, .. } => assert!(stat.is_none()),
        _ => panic!("call shape changed"),
    }
}

#[test]
fn invalid_path_bytes_abort_the_call_with_the_encoding_code() {
    let (mut ctx, _plan) = prepare_run(MirrorFs { content: b"hello".to_vec() }, &overrides(), args(), 1);
    let buf = ByteView::from_pair(vec![0u8; 4], 4);
    let call = CallIn::Read { path: vec![0x2f, 0xff, 0xfe], buf, offset: 0, fi: None };
    let (back, step) = handle_call(&mut ctx, call);
    assert!(matches!(step, CallStep::Completed { ret: -84 }));
    // The buffer was never touched: the call aborted before dispatch.
    match back {
        CallIn::Read { buf, .. } => assert_eq!(buf.as_bytes(), &vec![0u8; 4]),
        _ => panic!("call shape changed"),
    }
}

#[test]
fn wrong_handle_is_a_corrupted_context_not_a_dispatch() {
    let (mut ctx, plan) = prepare_run(MirrorFs { content: b"hello".to_vec() }, &overrides(), args(), 42);
    let bad = OpaqueHandle { tag: 41 };
    let call = CallIn::Getattr { path: b"/f".to_vec(), stat: Some(ATTR) };
    let (_, result) = dispatch_via(&mut ctx, &bad, call);
    assert_eq!(result, Err(AdapterError::ContextCorrupted));
    // The genuine handle still dispatches.
    let call = CallIn::Getattr { path: b"/f".to_vec(), stat: Some(ATTR) };
    let (_, result) = dispatch_via(&mut ctx, &plan.handle, call);
    assert!(matches!(result, Ok(CallStep::Completed { ret: 0 })));
}

#[test]
fn a_retired_session_recovers_nothing() {
    let (mut ctx, plan) = prepare_run(MirrorFs { content: Vec::new() }, &overrides(), args(), 7);
    end_run(&mut ctx);
    let call = CallIn::Getattr { path: b"/f".to_vec(), stat: None };
    let (_, result) = dispatch_via(&mut ctx, &plan.handle, call);
    assert_eq!(result, Err(AdapterError::ContextCorrupted));
}

#[test]
fn interleaved_call_ins_observe_one_consistent_table() {
    // Two call-ins against the same context, interleaved as a
    // multi-threaded native loop would issue them: neither observes a
    // half-updated table, before, between or after — a call never writes
    // the live table at all.
    let (mut ctx, plan) = prepare_run(MirrorFs { content: b"hello".to_vec() }, &overrides(), args(), 9);
    let table0 = ctx.table;
    let buf = ByteView::from_pair(vec![0u8; 5], 5);
    let read_call = CallIn::Read { path: b"/a".to_vec(), buf, offset: 0, fi: None };
    let (_, read_step) = dispatch_via(&mut ctx, &plan.handle, read_call);
    assert_eq!(ctx.table, table0);
    let data = ByteView::from_pair(b"zz".to_vec(), 2);
    let write_call = CallIn::Write { path: b"/a".to_vec(), data, offset: 0, fi: None };
    let (_, write_step) = dispatch_via(&mut ctx, &plan.handle, write_call);
    assert_eq!(ctx.table, table0);
    assert!(matches!(read_step, Ok(CallStep::Completed { ret: 5 })));
    assert!(matches!(write_step, Ok(CallStep::Delegate { .. })));
}

#[test]
fn exit_status_maps_zero_to_success() {
    assert_eq!(interpret_exit(0), Ok(()));
    assert_eq!(interpret_exit(1), Err(1));
    assert_eq!(interpret_exit(-5), Err(-5));
}
