//! The safe result of one handler call, and its conversion to and from the
//! native return convention.
//!
//! The native convention is a signed integer: zero or a positive value is
//! success together with a payload quantity (such as a count of bytes
//! transferred); a negative value is failure, its absolute value the
//! platform error number.  The safe result keeps three outcomes apart:
//! success with payload, failure with a specific error code, and a
//! not-implemented sentinel that is distinct from every real error code and
//! is never surfaced to the native caller directly.

use vstd::prelude::*;

verus! {

/// Faults of the adaptation layer itself, as opposed to error codes a
/// handler reports.  An encoding fault aborts the single call with a
/// distinguished native code; a corrupted context aborts the call before
/// any handler state is touched.
#[derive(Clone, Copy, PartialEq, Eq, Structural, Debug)]
pub enum AdapterError {
    /// A native text pointer did not decode as valid text.
    Encoding,
    /// The opaque handle passed back by the native caller does not recover
    /// the live context.
    ContextCorrupted,
}

/// The native error code with which a call is aborted when a native text
/// argument does not decode.  The policy here is fixed: invalid text is a
/// hard call-abort with this code, never a silent truncation.
pub const ENCODING_ERRNO: i32 = 84;

/// What one handler call came to.
#[derive(Clone, Copy, PartialEq, Eq, Structural, Debug)]
pub enum CallOutcome {
    /// The operation succeeded; the payload is the non-negative quantity
    /// handed back natively (for example, bytes transferred).
    Success(i32),
    /// The operation failed with this positive platform error number.
    Failed(i32),
    /// The handler declines the operation; resolved by delegation, never
    /// returned natively as it stands.
    NotImplemented,
}

impl CallOutcome {
    /// A well-formed outcome: success payloads are non-negative and error
    /// codes are positive, so the two occupy disjoint halves of the native
    /// integer convention.
    pub open spec fn wf(self) -> bool {
        match self {
            CallOutcome::Success(n) => n >= 0,
            CallOutcome::Failed(e) => e > 0,
            CallOutcome::NotImplemented => true,
        }
    }
}

/// The native integer a resolved outcome is returned as.  The sentinel has
/// no native encoding: the fallback coordinator resolves it before exit
/// conversion.
pub open spec fn spec_encode_outcome(o: CallOutcome) -> i32
    recommends
        o.wf(),
        o !is NotImplemented,
{
    match o {
        CallOutcome::Success(n) => n,
        CallOutcome::Failed(e) => (-(e as int)) as i32,
        CallOutcome::NotImplemented => arbitrary(),
    }
}

/// The outcome read back from a native return value.  A status below the
/// representable error magnitude is clamped to the largest error code.
pub open spec fn spec_decode_native(ret: i32) -> CallOutcome {
    if ret >= 0 {
        CallOutcome::Success(ret)
    } else if ret == i32::MIN {
        CallOutcome::Failed(i32::MAX)
    } else {
        CallOutcome::Failed((-(ret as int)) as i32)
    }
}

/// Exit conversion: turns a resolved outcome into the native return value.
/// Success keeps its payload exactly; failure is returned as the negated
/// error code.
pub fn encode_outcome(o: &CallOutcome) -> (ret: i32)
    requires
        o.wf(),
        !(o is NotImplemented),
    ensures
        ret == spec_encode_outcome(*o),
        o matches CallOutcome::Success(n) ==> ret == n && ret >= 0,
        o matches CallOutcome::Failed(e) ==> ret == -e && ret < 0,
{
    match o {
        CallOutcome::Success(n) => *n,
        CallOutcome::Failed(e) => -*e,
        CallOutcome::NotImplemented => unreached(),
    }
}

/// Entry conversion for a native return value, used when the result of a
/// delegated native call is read back: non-negative is success with that
/// payload, negative is failure with the negated code.
pub fn decode_native(ret: i32) -> (o: CallOutcome)
    ensures
        o == spec_decode_native(ret),
        o.wf(),
        !(o is NotImplemented),
{
    if ret >= 0 {
        CallOutcome::Success(ret)
    } else if ret == i32::MIN {
        CallOutcome::Failed(i32::MAX)
    } else {
        CallOutcome::Failed(-ret)
    }
}

/// Decoding a native return value and encoding the result again gives the
/// value back, for every status above the clamped minimum.
pub proof fn lemma_native_round_trip(ret: i32)
    requires
        ret != i32::MIN,
    ensures
        spec_encode_outcome(spec_decode_native(ret)) == ret,
{
}

/// Encoding a resolved outcome and decoding the native value again gives
/// the outcome back: the convention loses nothing of a success payload or
/// an error code.
pub proof fn lemma_outcome_round_trip(o: CallOutcome)
    requires
        o.wf(),
        !(o is NotImplemented),
    ensures
        spec_decode_native(spec_encode_outcome(o)) == o,
{
}

} // verus!
