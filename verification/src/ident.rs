//! Fresh identifiers for emitted shim code.
//!
//! Generated entry points and their locals need names that cannot collide
//! with the schema's own parameter names, so each one is a fixed base
//! followed by a random suffix drawn from a charset of identifier
//! characters.

use vstd::prelude::*;

verus! {

/// The characters a random identifier suffix is drawn from: underscore and
/// ASCII letters only, so a suffix can stand anywhere in an identifier.
pub const IDENT_CHARS: &'static str = "_qwertyuiopasdfghjklzxcvbnmQWERTYUIOPASDFGHJKLZXCVBNM";

/// The length of the random suffix appended to every generated identifier.
pub const SUFFIX_LEN: usize = 10;

/// Relies on `random_string::generate`: the result has exactly `length`
/// characters, each one drawn from `charset`; which ones is random, so
/// nothing more holds of any outcome.  It panics on an empty charset,
/// which the precondition rules out.
#[verifier::external_body]
fn random_chars(length: usize, charset: &str) -> (r: String)
    requires
        charset@.len() > 0,
    ensures
        r@.len() == length,
        forall|i: int| 0 <= i < r@.len() ==> charset@.contains(#[trigger] r@[i]),
{
    random_string::generate(length, charset)
}

/// A fresh identifier for emitted code: the base name followed by a random
/// suffix of `SUFFIX_LEN` characters from `IDENT_CHARS`.
pub fn fresh_ident(base: &str) -> (r: String)
    ensures
        r@.len() == base@.len() + SUFFIX_LEN,
        r@.subrange(0, base@.len() as int) == base@,
        forall|i: int|
            base@.len() <= i < r@.len() ==> IDENT_CHARS@.contains(#[trigger] r@[i]),
{
    proof {
        // The literal must be revealed for its length to be known.
        reveal_strlit("_qwertyuiopasdfghjklzxcvbnmQWERTYUIOPASDFGHJKLZXCVBNM");
    }
    let suffix = random_chars(SUFFIX_LEN, IDENT_CHARS);
    let mut out = String::from_str(base);
    out.append(suffix.as_str());
    proof {
        assert(out@.subrange(0, base@.len() as int) =~= base@);
        assert forall|i: int|
            base@.len() <= i < out@.len() implies IDENT_CHARS@.contains(
            #[trigger] out@[i],
        ) by {
            assert(out@[i] == suffix@[i - base@.len()]);
        }
    }
    out
}

} // verus!
