//! The operation schema: a read-only catalog of the native callback
//! table's fields.
//!
//! The schema is produced outside this crate by whatever reads the native
//! library's header; here it is plain data.  Each field of the native
//! struct is either an optional callback pointer — a candidate operation
//! slot, with its ordered native parameter list and native return type —
//! or some other field (a flag, a bitfield) that is never generated.

use vstd::prelude::*;

verus! {

/// A native parameter or return type, as the schema spells it: either a
/// pointer, possibly nested, or a plain named type.
#[derive(PartialEq, Eq, Debug)]
pub enum NativeType {
    /// A native pointer; `is_mut` tells a `*mut` from a `*const`.
    Ptr { is_mut: bool, elem: Box<NativeType> },
    /// A named plain type: a scalar, an enum, a record, or a typedef.
    Name(String),
}

impl Clone for NativeType {
    fn clone(&self) -> (r: Self)
        ensures
            r == *self,
        decreases *self,
    {
        match self {
            NativeType::Ptr { is_mut, elem } => NativeType::Ptr {
                is_mut: *is_mut,
                elem: Box::new((**elem).clone()),
            },
            NativeType::Name(n) => NativeType::Name(n.clone()),
        }
    }
}

impl NativeType {
    /// Whether this is the plain named type spelled `what`.
    pub open spec fn spec_is_name(self, what: Seq<char>) -> bool {
        self matches NativeType::Name(n) && n@ == what
    }

    /// Executable check against a needle name.
    pub fn is_name(&self, what: &String) -> (b: bool)
        ensures
            b == self.spec_is_name(what@),
    {
        match self {
            NativeType::Name(n) => n.eq(what),
            NativeType::Ptr { .. } => false,
        }
    }
}

/// One named parameter of a native callback.
#[derive(PartialEq, Eq, Debug)]
pub struct NativeParam {
    pub name: String,
    pub ty: NativeType,
}

impl Clone for NativeParam {
    fn clone(&self) -> (r: Self)
        ensures
            r == *self,
    {
        NativeParam { name: self.name.clone(), ty: self.ty.clone() }
    }
}

/// What one field of the native table holds.
#[derive(PartialEq, Eq, Debug)]
pub enum FieldType {
    /// An optional callback pointer: a candidate operation slot with its
    /// native parameter list, whether that list has a variadic tail, and
    /// its native return type.
    Callback { params: Vec<NativeParam>, variadic: bool, ret: NativeType },
    /// Any other field; never generated.
    Plain(NativeType),
}

/// One field of the native operation table, by name.
#[derive(PartialEq, Eq, Debug)]
pub struct TableField {
    pub name: String,
    pub ty: FieldType,
}

} // verus!
