//! A safe, verified adaptation layer between a native filesystem callback
//! table and a high-level handler interface.
//!
//! The native library drives a filesystem through a fixed struct of
//! optional C callback pointers.  This crate models that boundary with
//! plain values: a schema of operation slots is translated into safe
//! handler signatures and marshaling rules; call-ins are converted between
//! native and safe representations at entry and exit; and an operation a
//! handler declines is delegated back to the native library's own default
//! behavior through a transient, single-call session.

pub mod context;
pub mod dispatch;
pub mod driver;
pub mod gen;
pub mod handler;
pub mod ident;
pub mod ops;
pub mod outcome;
pub mod schema;
pub mod text;
pub mod translate;
pub mod view;
