//! The generated operation slots, the handler table, and the override set.
//!
//! The native library exposes its backend as a fixed struct of optional
//! callback pointers, one per operation.  The handler table models that
//! struct: every entry starts unset, meaning the native library's own
//! built-in behavior applies, and becomes wired only for operations the
//! consumer overrides.

use vstd::prelude::*;

verus! {

/// The generated operation slots: one identifier per entry point the
/// handler interface exposes.
#[derive(Clone, Copy, PartialEq, Eq, Structural, Debug)]
pub enum OpId {
    Getattr,
    Read,
    Write,
    Flush,
    Unlink,
}

/// One slot of the native operation table: unset means the native
/// library's own default behavior applies; wired means the slot points at
/// the generated shim for that operation.
#[derive(Clone, Copy, PartialEq, Eq, Structural, Debug)]
pub enum TableEntry {
    Unset,
    Wired,
}

/// The operations a consumer's handler overrides.  Only these slots are
/// wired when the table is built; every other slot stays unset.
#[derive(Clone, Copy, PartialEq, Eq, Structural, Debug)]
pub struct OverrideSet {
    pub getattr: bool,
    pub read: bool,
    pub write: bool,
    pub flush: bool,
    pub unlink: bool,
}

impl OverrideSet {
    /// Whether the given operation is overridden.
    pub open spec fn spec_contains(self, op: OpId) -> bool {
        match op {
            OpId::Getattr => self.getattr,
            OpId::Read => self.read,
            OpId::Write => self.write,
            OpId::Flush => self.flush,
            OpId::Unlink => self.unlink,
        }
    }

}

/// The mapping from operation to table entry for one session.
#[derive(Clone, Copy, PartialEq, Eq, Structural, Debug)]
pub struct HandlerTable {
    pub getattr: TableEntry,
    pub read: TableEntry,
    pub write: TableEntry,
    pub flush: TableEntry,
    pub unlink: TableEntry,
}

impl HandlerTable {
    /// The entry the table holds for the given operation.
    pub open spec fn spec_entry(self, op: OpId) -> TableEntry {
        match op {
            OpId::Getattr => self.getattr,
            OpId::Read => self.read,
            OpId::Write => self.write,
            OpId::Flush => self.flush,
            OpId::Unlink => self.unlink,
        }
    }

    /// Whether the slot for the given operation is wired to its shim.
    pub open spec fn spec_wired(self, op: OpId) -> bool {
        self.spec_entry(op) is Wired
    }

    /// The table with exactly the one given slot cleared and every other
    /// slot as it was.
    pub open spec fn spec_clear(self, op: OpId) -> HandlerTable {
        match op {
            OpId::Getattr => HandlerTable { getattr: TableEntry::Unset, ..self },
            OpId::Read => HandlerTable { read: TableEntry::Unset, ..self },
            OpId::Write => HandlerTable { write: TableEntry::Unset, ..self },
            OpId::Flush => HandlerTable { flush: TableEntry::Unset, ..self },
            OpId::Unlink => HandlerTable { unlink: TableEntry::Unset, ..self },
        }
    }

    /// A fresh table: every slot unset, so the native library's built-in
    /// behavior applies to every operation.
    pub fn unset() -> (t: HandlerTable)
        ensures
            forall|op: OpId| t.spec_entry(op) == TableEntry::Unset,
    {
        let t = HandlerTable {
            getattr: TableEntry::Unset,
            read: TableEntry::Unset,
            write: TableEntry::Unset,
            flush: TableEntry::Unset,
            unlink: TableEntry::Unset,
        };
        proof {
            assert forall|op: OpId| t.spec_entry(op) == TableEntry::Unset by {
                match op {
                    OpId::Getattr => {},
                    OpId::Read => {},
                    OpId::Write => {},
                    OpId::Flush => {},
                    OpId::Unlink => {},
                }
            }
        }
        t
    }

    /// Whether the slot for the given operation is wired.
    pub fn wired(&self, op: OpId) -> (b: bool)
        ensures
            b == self.spec_wired(op),
    {
        let e = match op {
            OpId::Getattr => self.getattr,
            OpId::Read => self.read,
            OpId::Write => self.write,
            OpId::Flush => self.flush,
            OpId::Unlink => self.unlink,
        };
        match e {
            TableEntry::Wired => true,
            TableEntry::Unset => false,
        }
    }

    /// A working copy of the table with exactly the one given slot
    /// cleared; the table itself is untouched.
    pub fn cleared(&self, op: OpId) -> (t: HandlerTable)
        ensures
            t == self.spec_clear(op),
            !t.spec_wired(op),
            forall|other: OpId| other != op ==> t.spec_wired(other) == self.spec_wired(other),
    {
        let t = match op {
            OpId::Getattr => HandlerTable { getattr: TableEntry::Unset, ..*self },
            OpId::Read => HandlerTable { read: TableEntry::Unset, ..*self },
            OpId::Write => HandlerTable { write: TableEntry::Unset, ..*self },
            OpId::Flush => HandlerTable { flush: TableEntry::Unset, ..*self },
            OpId::Unlink => HandlerTable { unlink: TableEntry::Unset, ..*self },
        };
        proof {
            assert forall|other: OpId| other != op implies t.spec_wired(other)
                == self.spec_wired(other) by {
                match other {
                    OpId::Getattr => {},
                    OpId::Read => {},
                    OpId::Write => {},
                    OpId::Flush => {},
                    OpId::Unlink => {},
                }
            }
        }
        t
    }
}

/// Builds the table for one session: a slot is wired exactly when the
/// handler overrides its operation, so an operation the handler never
/// touches keeps the native library's built-in behavior and never reaches
/// the adaptation layer at all.
pub fn build_table(ov: &OverrideSet) -> (t: HandlerTable)
    ensures
        forall|op: OpId| t.spec_wired(op) <==> ov.spec_contains(op),
{
    let t = HandlerTable {
        getattr: if ov.getattr { TableEntry::Wired } else { TableEntry::Unset },
        read: if ov.read { TableEntry::Wired } else { TableEntry::Unset },
        write: if ov.write { TableEntry::Wired } else { TableEntry::Unset },
        flush: if ov.flush { TableEntry::Wired } else { TableEntry::Unset },
        unlink: if ov.unlink { TableEntry::Wired } else { TableEntry::Unset },
    };
    proof {
        assert forall|op: OpId| t.spec_wired(op) <==> ov.spec_contains(op) by {
            match op {
                OpId::Getattr => {},
                OpId::Read => {},
                OpId::Write => {},
                OpId::Flush => {},
                OpId::Unlink => {},
            }
        }
    }
    t
}

/// A slot outside the override set is never wired: no call-in for that
/// operation can reach the generated shim, so the fallback machinery is
/// unreachable for it.
pub proof fn lemma_unoverridden_slot_stays_unset(ov: OverrideSet, t: HandlerTable, op: OpId)
    requires
        forall|o: OpId| t.spec_wired(o) <==> ov.spec_contains(o),
        !ov.spec_contains(op),
    ensures
        t.spec_entry(op) == TableEntry::Unset,
        !t.spec_wired(op),
{
    assert(!t.spec_wired(op));
    match t.spec_entry(op) {
        TableEntry::Unset => {},
        TableEntry::Wired => {
            assert(false);
        },
    }
}

} // verus!
