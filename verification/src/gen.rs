//! Generation of the handler interface from the operation schema.
//!
//! Every field of the native table that is an optional callback pointer,
//! is not blacklisted, has no variadic tail, and returns the native
//! integer error-code convention becomes one generated slot: its safe
//! parameter list is the signature translator's output for its native
//! parameter list.  Every other field is excluded entirely — neither
//! wired nor exposed.  The names the translator notes are merged, with
//! primitives dropped and duplicates removed, into one re-export list so
//! handler authors can name every non-primitive type they receive.

use vstd::prelude::*;

use crate::schema::{FieldType, TableField};
use crate::translate::{names_of, safe_params, spec_reexports, spec_safe_params, SafeParam};

verus! {

/// One generated operation slot: the slot's name and its safe handler
/// parameter list.
#[derive(PartialEq, Eq, Debug)]
pub struct TranslatedSlot {
    pub name: String,
    pub params: Vec<SafeParam>,
}

/// The generated handler interface: the slots, in schema order, and the
/// deduplicated list of type names to re-export.
#[derive(PartialEq, Eq, Debug)]
pub struct GeneratedInterface {
    pub slots: Vec<TranslatedSlot>,
    pub reexports: Vec<String>,
}

/// The blacklist as the name sequences it spells.
pub open spec fn spec_names(bl: Seq<String>) -> Seq<Seq<char>> {
    bl.map_values(|s: String| s@)
}

/// Whether a field of the native table is generated: not blacklisted, an
/// optional callback pointer, no variadic tail, and the native integer
/// return convention.
pub open spec fn spec_generated(f: TableField, bl: Seq<Seq<char>>) -> bool {
    &&& !bl.contains(f.name@)
    &&& f.ty matches FieldType::Callback { params, variadic, ret } && !variadic
        && ret.spec_is_name("c_int"@)
}

/// The subsequence of fields that are generated, in schema order.
pub open spec fn spec_included(fields: Seq<TableField>, bl: Seq<Seq<char>>) -> Seq<TableField>
    decreases fields.len(),
{
    if fields.len() == 0 {
        Seq::empty()
    } else {
        let head: Seq<TableField> = if spec_generated(fields[0], bl) {
            seq![fields[0]]
        } else {
            Seq::empty()
        };
        head + spec_included(fields.skip(1), bl)
    }
}

/// A generated slot agrees with its schema field: same name, and its
/// parameters are the translator's output for the field's native
/// parameter list.
pub open spec fn spec_slot_matches(slot: TranslatedSlot, f: TableField) -> bool {
    &&& slot.name == f.name
    &&& f.ty matches FieldType::Callback { params, .. } && slot.params@ == spec_safe_params(
        params@,
    )
}

/// The names one field contributes for re-export.
pub open spec fn spec_slot_rx(f: TableField) -> Set<Seq<char>> {
    match f.ty {
        FieldType::Callback { params, .. } => spec_reexports(params@),
        FieldType::Plain(_) => Set::empty(),
    }
}

/// The names a sequence of fields contributes for re-export.
pub open spec fn spec_union_rx(fields: Seq<TableField>) -> Set<Seq<char>>
    decreases fields.len(),
{
    if fields.len() == 0 {
        Set::empty()
    } else {
        spec_slot_rx(fields[0]).union(spec_union_rx(fields.skip(1)))
    }
}

/// The primitive scalar names that are never re-exported.
pub open spec fn spec_is_primitive(n: Seq<char>) -> bool {
    ||| n == "u8"@
    ||| n == "u16"@
    ||| n == "u32"@
    ||| n == "u64"@
    ||| n == "u128"@
    ||| n == "i8"@
    ||| n == "i16"@
    ||| n == "i32"@
    ||| n == "i64"@
    ||| n == "i128"@
}

/// A name set with the primitive scalar names dropped.
pub open spec fn spec_nonprimitive(s: Set<Seq<char>>) -> Set<Seq<char>> {
    s.filter(|n: Seq<char>| !spec_is_primitive(n))
}

/// The re-export set of the whole generated interface: every name the
/// generated fields contribute, with primitives dropped.
pub open spec fn spec_prelude_reexports(fields: Seq<TableField>, bl: Seq<Seq<char>>) -> Set<
    Seq<char>,
> {
    spec_nonprimitive(spec_union_rx(spec_included(fields, bl)))
}

/// No two collected strings spell the same name.
pub open spec fn spec_nodup_names(rx: Seq<String>) -> bool {
    forall|i: int, j: int| 0 <= i < j < rx.len() ==> rx[i]@ != rx[j]@
}

/// Appending one field to a field sequence adds exactly its contribution
/// to the union of noted names.
proof fn lemma_union_rx_push(fields: Seq<TableField>, f: TableField)
    ensures
        spec_union_rx(fields.push(f)) == spec_union_rx(fields).union(spec_slot_rx(f)),
    decreases fields.len(),
{
    if fields.len() == 0 {
        assert(fields.push(f).len() == 1);
        assert(fields.push(f)[0] == f);
        assert(fields.push(f).skip(1) =~= Seq::<TableField>::empty());
        assert(spec_union_rx(fields.push(f)) == spec_slot_rx(f).union(
            spec_union_rx(fields.push(f).skip(1)),
        ));
        assert(spec_union_rx(Seq::<TableField>::empty()) == Set::<Seq<char>>::empty());
        assert(spec_union_rx(fields) == Set::<Seq<char>>::empty());
        assert(spec_union_rx(fields.push(f)) =~= spec_union_rx(fields).union(spec_slot_rx(f)));
    } else {
        assert(fields.push(f).len() == fields.len() + 1);
        assert(fields.push(f)[0] == fields[0]);
        assert(fields.push(f).skip(1) =~= fields.skip(1).push(f));
        lemma_union_rx_push(fields.skip(1), f);
        assert(spec_union_rx(fields.push(f)) == spec_slot_rx(fields.push(f)[0]).union(
            spec_union_rx(fields.push(f).skip(1)),
        ));
        assert(spec_union_rx(fields) == spec_slot_rx(fields[0]).union(
            spec_union_rx(fields.skip(1)),
        ));
        assert(spec_union_rx(fields.push(f).skip(1)) == spec_union_rx(fields.skip(1)).union(
            spec_slot_rx(f),
        ));
        assert(spec_union_rx(fields.push(f)) =~= spec_union_rx(fields).union(spec_slot_rx(f)));
    }
}

/// Appending one string to a collection inserts exactly its name.
proof fn lemma_names_push(rx: Seq<String>, s: String)
    ensures
        names_of(rx.push(s)) == names_of(rx).insert(s@),
{
    let after = rx.push(s);
    assert forall|n: Seq<char>| #[trigger] names_of(after).contains(n) implies names_of(
        rx,
    ).insert(s@).contains(n) by {
        let i = choose|i: int| 0 <= i < after.len() && after[i]@ == n;
        if i < rx.len() {
            assert(rx[i]@ == n);
        }
    }
    assert forall|n: Seq<char>| names_of(rx).insert(s@).contains(n) implies #[trigger] names_of(
        after,
    ).contains(n) by {
        if n == s@ {
            assert(after[rx.len() as int]@ == n);
        } else {
            let i = choose|i: int| 0 <= i < rx.len() && rx[i]@ == n;
            assert(after[i]@ == n);
        }
    }
    assert(names_of(after) =~= names_of(rx).insert(s@));
}

/// Whether some collected string spells this name.
fn contains_name(v: &Vec<String>, s: &String) -> (b: bool)
    ensures
        b == names_of(v@).contains(s@),
{
    let mut j: usize = 0;
    while j < v.len()
        invariant
            j <= v@.len(),
            forall|k: int| 0 <= k < j ==> v@[k]@ != s@,
        decreases v@.len() - j,
    {
        if v[j].eq(s) {
            assert(names_of(v@).contains(s@));
            return true;
        }
        j += 1;
    }
    assert(!names_of(v@).contains(s@));
    false
}

/// Whether the name is one of the primitive scalar names.
fn is_primitive(s: &String) -> (b: bool)
    ensures
        b == spec_is_primitive(s@),
{
    if s.eq(&String::from_str("u8")) {
        return true;
    }
    if s.eq(&String::from_str("u16")) {
        return true;
    }
    if s.eq(&String::from_str("u32")) {
        return true;
    }
    if s.eq(&String::from_str("u64")) {
        return true;
    }
    if s.eq(&String::from_str("u128")) {
        return true;
    }
    if s.eq(&String::from_str("i8")) {
        return true;
    }
    if s.eq(&String::from_str("i16")) {
        return true;
    }
    if s.eq(&String::from_str("i32")) {
        return true;
    }
    if s.eq(&String::from_str("i64")) {
        return true;
    }
    if s.eq(&String::from_str("i128")) {
        return true;
    }
    false
}

/// Merges one slot's noted names into the global re-export list,
/// dropping primitives and duplicates.
fn merge_reexports(grx: &mut Vec<String>, incoming: Vec<String>)
    requires
        spec_nodup_names(old(grx)@),
    ensures
        spec_nodup_names(final(grx)@),
        names_of(final(grx)@) == names_of(old(grx)@).union(spec_nonprimitive(names_of(incoming@))),
{
    let ghost start: Seq<String> = grx@;
    let mut inc = incoming;
    let ghost all: Seq<String> = inc@;
    let mut taken: usize = 0;
    while taken < inc.len()
        invariant
            taken <= inc@.len(),
            inc@ == all,
            spec_nodup_names(grx@),
            names_of(grx@) == names_of(start).union(
                spec_nonprimitive(names_of(all.take(taken as int))),
            ),
        decreases inc@.len() - taken,
    {
        let ghost grx_before: Seq<String> = grx@;
        let s = &inc[taken];
        let prim = is_primitive(s);
        let present = contains_name(grx, s);
        if !prim && !present {
            let owned = s.clone();
            let ghost gowned: String = owned;
            grx.push(owned);
            proof {
                lemma_names_push(grx_before, gowned);
            }
        }
        proof {
            let t = taken as int;
            assert(all.take(t + 1) =~= all.take(t).push(all[t]));
            lemma_names_push(all.take(t), all[t]);
            assert(names_of(all.take(t + 1)) == names_of(all.take(t)).insert(all[t]@));
            if prim {
                assert(names_of(start).union(spec_nonprimitive(names_of(all.take(t + 1))))
                    =~= names_of(start).union(spec_nonprimitive(names_of(all.take(t)))));
            } else if present {
                assert(names_of(grx_before).contains(all[t]@));
                assert(names_of(start).union(spec_nonprimitive(names_of(all.take(t + 1))))
                    =~= names_of(start).union(spec_nonprimitive(names_of(all.take(t)))));
            } else {
                assert(names_of(grx@) == names_of(grx_before).insert(all[t]@));
                assert(names_of(start).union(spec_nonprimitive(names_of(all.take(t + 1))))
                    =~= names_of(grx_before).insert(all[t]@));
                assert forall|i: int, j: int| 0 <= i < j < grx@.len() implies grx@[i]@
                    != grx@[j]@ by {
                    if j == grx@.len() - 1 {
                        if grx@[i]@ == grx@[j]@ {
                            assert(names_of(grx_before).contains(all[t]@));
                        }
                    }
                }
            }
        }
        taken += 1;
    }
    proof {
        assert(all.take(taken as int) =~= all);
    }
}

/// One inclusion step extends the produced slot list in lockstep with the
/// included-field prefix.
proof fn lemma_included_step(
    orig: Seq<TableField>,
    done: Seq<TableField>,
    f: TableField,
    rest_before: Seq<TableField>,
    rest_after: Seq<TableField>,
    bl: Seq<Seq<char>>,
)
    requires
        spec_included(orig, bl) == done + spec_included(rest_before, bl),
        rest_before.len() > 0,
        rest_before[0] == f,
        rest_after == rest_before.skip(1),
        spec_generated(f, bl),
    ensures
        spec_included(orig, bl) == done.push(f) + spec_included(rest_after, bl),
{
    assert(spec_included(rest_before, bl) == seq![f] + spec_included(rest_after, bl));
    assert(done.push(f) + spec_included(rest_after, bl) =~= done + (seq![f] + spec_included(
        rest_after,
        bl,
    )));
}

/// One exclusion step leaves the included-field prefix as it is.
proof fn lemma_excluded_step(
    orig: Seq<TableField>,
    done: Seq<TableField>,
    rest_before: Seq<TableField>,
    rest_after: Seq<TableField>,
    bl: Seq<Seq<char>>,
)
    requires
        spec_included(orig, bl) == done + spec_included(rest_before, bl),
        rest_before.len() > 0,
        !spec_generated(rest_before[0], bl),
        rest_after == rest_before.skip(1),
    ensures
        spec_included(orig, bl) == done + spec_included(rest_after, bl),
{
    assert(spec_included(rest_before, bl) =~= Seq::<TableField>::empty() + spec_included(
        rest_after,
        bl,
    ));
    assert(Seq::<TableField>::empty() + spec_included(rest_after, bl) =~= spec_included(
        rest_after,
        bl,
    ));
}

/// Whether this field is generated: the executable check against the
/// blacklist and the slot's shape.
fn is_generated(f: &TableField, blacklist: &Vec<String>) -> (b: bool)
    ensures
        b == spec_generated(*f, spec_names(blacklist@)),
{
    let c_int = String::from_str("c_int");
    let mut black = false;
    let mut j: usize = 0;
    while j < blacklist.len()
        invariant
            j <= blacklist@.len(),
            black == exists|k: int| 0 <= k < j && blacklist@[k]@ == f.name@,
        decreases blacklist@.len() - j,
    {
        if blacklist[j].eq(&f.name) {
            black = true;
        }
        j += 1;
    }
    proof {
        assert(black == spec_names(blacklist@).contains(f.name@)) by {
            if black {
                let k = choose|k: int| 0 <= k < blacklist@.len() && blacklist@[k]@ == f.name@;
                assert(spec_names(blacklist@)[k] == f.name@);
            } else if spec_names(blacklist@).contains(f.name@) {
                let k = choose|k: int|
                    0 <= k < spec_names(blacklist@).len() && spec_names(blacklist@)[k]
                        == f.name@;
                assert(blacklist@[k]@ == f.name@);
            }
        }
    }
    if black {
        return false;
    }
    match &f.ty {
        FieldType::Callback { params: _, variadic, ret } => !*variadic && ret.is_name(&c_int),
        FieldType::Plain(_) => false,
    }
}

/// Generates the handler interface for a schema: one slot per generated
/// field, in schema order, each translated by the signature translator,
/// and the deduplicated, primitive-free re-export list.
pub fn generate_interface(fields: Vec<TableField>, blacklist: &Vec<String>) -> (gi:
    GeneratedInterface)
    ensures
        gi.slots@.len() == spec_included(fields@, spec_names(blacklist@)).len(),
        forall|i: int|
            0 <= i < gi.slots@.len() ==> spec_slot_matches(
                gi.slots@[i],
                spec_included(fields@, spec_names(blacklist@))[i],
            ),
        names_of(gi.reexports@) == spec_prelude_reexports(fields@, spec_names(blacklist@)),
        spec_nodup_names(gi.reexports@),
{
    let ghost orig: Seq<TableField> = fields@;
    let ghost bl: Seq<Seq<char>> = spec_names(blacklist@);
    let mut restf = fields;
    let mut slots: Vec<TranslatedSlot> = Vec::new();
    let mut grx: Vec<String> = Vec::new();
    let ghost mut done: Seq<TableField> = Seq::empty();
    while restf.len() > 0
        invariant
            spec_included(orig, bl) == done + spec_included(restf@, bl),
            slots@.len() == done.len(),
            forall|i: int| 0 <= i < done.len() ==> spec_slot_matches(slots@[i], done[i]),
            spec_nodup_names(grx@),
            names_of(grx@) == spec_nonprimitive(spec_union_rx(done)),
            bl == spec_names(blacklist@),
        decreases restf@.len(),
    {
        let ghost before: Seq<TableField> = restf@;
        let gen = is_generated(&restf[0], blacklist);
        let f = restf.remove(0);
        let ghost gf: TableField = f;
        proof {
            assert(restf@ =~= before.skip(1));
        }
        if gen {
            proof {
                lemma_included_step(orig, done, gf, before, restf@, bl);
            }
            let TableField { name, ty } = f;
            match ty {
                FieldType::Callback { params, variadic: _, ret: _ } => {
                    let ghost gparams = params@;
                    let (sp, srx) = safe_params(params);
                    slots.push(TranslatedSlot { name, params: sp });
                    let ghost grx_before: Seq<String> = grx@;
                    merge_reexports(&mut grx, srx);
                    proof {
                        let done_before = done;
                        done = done.push(gf);
                        assert(spec_slot_rx(gf) == spec_reexports(gparams));
                        lemma_union_rx_push(done_before, gf);
                        assert(spec_union_rx(done) == spec_union_rx(done_before).union(
                            spec_slot_rx(gf),
                        ));
                        assert(names_of(grx@) == names_of(grx_before).union(
                            spec_nonprimitive(spec_slot_rx(gf)),
                        ));
                        assert(spec_nonprimitive(spec_union_rx(done_before)).union(
                            spec_nonprimitive(spec_slot_rx(gf)),
                        ) =~= spec_nonprimitive(spec_union_rx(done)));
                        assert forall|i: int| 0 <= i < done.len() implies spec_slot_matches(
                            slots@[i],
                            done[i],
                        ) by {
                            if i < done.len() - 1 {
                                assert(spec_slot_matches(slots@[i], done[i]));
                            }
                        }
                    }
                },
                FieldType::Plain(_) => {
                    proof {
                        assert(false);
                    }
                },
            }
        } else {
            proof {
                lemma_excluded_step(orig, done, before, restf@, bl);
            }
        }
    }
    proof {
        assert(spec_included(restf@, bl) =~= Seq::<TableField>::empty());
        assert(done + spec_included(restf@, bl) =~= done);
    }
    GeneratedInterface { slots, reexports: grx }
}

} // verus!
