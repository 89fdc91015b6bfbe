//! The signature translator: from one native callback signature to the
//! safe handler signature and the marshaling instructions that carry a
//! call across.
//!
//! The translation is a pure, deterministic mapping, applied left to right
//! over the native parameter list with one token of lookahead.  A pointer
//! immediately followed by a length parameter becomes one bounded sequence
//! view and consumes the length; a constant pointer to narrow-character
//! bytes becomes borrowed text; any other pointer becomes an optional
//! reference; the known directory-fill callback typedef becomes a wrapped
//! callable; every plain value passes through unchanged, noted for
//! re-export when it is not a primitive, so handler authors can name it.

use vstd::prelude::*;

use crate::schema::{NativeParam, NativeType};

verus! {

/// A parameter type of the safe handler signature.
#[derive(PartialEq, Eq, Debug)]
#[allow(inconsistent_fields)]
pub enum SafeType {
    /// The narrow character type, viewed as a byte.
    Byte,
    /// A named plain type passed through unchanged.
    Name(String),
    /// A borrowed reference to the pointed-at value.
    Ref { is_mut: bool, elem: Box<SafeType> },
    /// A bounded read or read-write sequence view over the element type.
    Slice { is_mut: bool, elem: Box<SafeType> },
    /// Borrowed text decoded from narrow-character bytes.
    Text,
    /// An optional borrowed reference to the original pointed-at native
    /// type; absent models the null pointer.
    OptRef { is_mut: bool, elem: Box<NativeType> },
    /// The known directory-fill callback typedef, wrapped as a callable
    /// that marshals its own invocation arguments symmetrically before
    /// forwarding to the captured native callback.  The schema cannot
    /// spell a typedef's signature, so this one is recognized by name.
    FillDir,
}

/// The per-parameter conversion a generated shim performs at call entry.
#[derive(PartialEq, Eq, Debug)]
pub enum MarshalRule {
    /// Pass the scalar through unchanged.
    Pass,
    /// Construct the bounded view from the (pointer, length) pair; the
    /// length parameter is consumed and does not appear on its own.
    PairView { is_mut: bool },
    /// Decode the narrow-character bytes as text; invalid encoding is a
    /// hard call-abort with a distinguished error.
    Text,
    /// Null maps to absent, non-null to a borrowed reference; ownership
    /// stays with the native caller.
    OptionRef { is_mut: bool },
    /// Wrap the native callback pointer in a marshaling callable.
    WrapCallback,
}

/// One parameter of the safe handler signature, with the instruction that
/// marshals it.
#[derive(PartialEq, Eq, Debug)]
pub struct SafeParam {
    pub name: String,
    pub ty: SafeType,
    pub rule: MarshalRule,
}

/// The element type a pointed-at native type is viewed at inside a
/// bounded sequence view: pointers become references, the narrow
/// character type becomes a byte, every other name stays itself.
pub open spec fn spec_sub_type(t: NativeType) -> SafeType
    decreases t,
{
    match t {
        NativeType::Ptr { is_mut, elem } => SafeType::Ref {
            is_mut,
            elem: Box::new(spec_sub_type(*elem)),
        },
        NativeType::Name(n) => {
            if n@ == "c_char"@ {
                SafeType::Byte
            } else {
                SafeType::Name(n)
            }
        },
    }
}

/// Executable counterpart of [`spec_sub_type`].
pub fn sub_type(t: &NativeType) -> (r: SafeType)
    ensures
        r == spec_sub_type(*t),
    decreases *t,
{
    let c_char = String::from_str("c_char");
    match t {
        NativeType::Ptr { is_mut, elem } => SafeType::Ref {
            is_mut: *is_mut,
            elem: Box::new(sub_type(elem)),
        },
        NativeType::Name(n) => {
            if n.eq(&c_char) {
                SafeType::Byte
            } else {
                SafeType::Name(n.clone())
            }
        },
    }
}

/// The safe parameter list for one native parameter list: the translation
/// table applied left to right, with one token of lookahead deciding the
/// (pointer, length) pairing.
pub open spec fn spec_safe_params(params: Seq<NativeParam>) -> Seq<SafeParam>
    decreases params.len(),
{
    if params.len() == 0 {
        Seq::empty()
    } else {
        let p = params[0];
        match p.ty {
            NativeType::Ptr { is_mut, elem } => {
                if params.len() >= 2 && params[1].ty.spec_is_name("size_t"@) {
                    seq![
                        SafeParam {
                            name: p.name,
                            ty: SafeType::Slice { is_mut, elem: Box::new(spec_sub_type(*elem)) },
                            rule: MarshalRule::PairView { is_mut },
                        },
                    ] + spec_safe_params(params.skip(2))
                } else if !is_mut && (*elem).spec_is_name("c_char"@) {
                    seq![
                        SafeParam { name: p.name, ty: SafeType::Text, rule: MarshalRule::Text },
                    ] + spec_safe_params(params.skip(1))
                } else {
                    seq![
                        SafeParam {
                            name: p.name,
                            ty: SafeType::OptRef { is_mut, elem },
                            rule: MarshalRule::OptionRef { is_mut },
                        },
                    ] + spec_safe_params(params.skip(1))
                }
            },
            NativeType::Name(n) => {
                if n@ == "fuse_fill_dir_t"@ {
                    seq![
                        SafeParam {
                            name: p.name,
                            ty: SafeType::FillDir,
                            rule: MarshalRule::WrapCallback,
                        },
                    ] + spec_safe_params(params.skip(1))
                } else {
                    seq![
                        SafeParam { name: p.name, ty: SafeType::Name(n), rule: MarshalRule::Pass },
                    ] + spec_safe_params(params.skip(1))
                }
            },
        }
    }
}

/// The set of type names one native parameter list notes for re-export: a
/// plain named type passed through, or named and pointed at by an
/// optional reference, is one a handler author must be able to name.
/// Paired, text and callback parameters contribute nothing.
pub open spec fn spec_reexports(params: Seq<NativeParam>) -> Set<Seq<char>>
    decreases params.len(),
{
    if params.len() == 0 {
        Set::empty()
    } else {
        let p = params[0];
        match p.ty {
            NativeType::Ptr { is_mut, elem } => {
                if params.len() >= 2 && params[1].ty.spec_is_name("size_t"@) {
                    spec_reexports(params.skip(2))
                } else if !is_mut && (*elem).spec_is_name("c_char"@) {
                    spec_reexports(params.skip(1))
                } else {
                    match *elem {
                        NativeType::Name(en) => spec_reexports(params.skip(1)).insert(en@),
                        NativeType::Ptr { .. } => spec_reexports(params.skip(1)),
                    }
                }
            },
            NativeType::Name(n) => {
                if n@ == "fuse_fill_dir_t"@ {
                    spec_reexports(params.skip(1))
                } else {
                    spec_reexports(params.skip(1)).insert(n@)
                }
            },
        }
    }
}

/// The names a sequence of collected strings stands for.
pub open spec fn names_of(rx: Seq<String>) -> Set<Seq<char>> {
    Set::new(|n: Seq<char>| exists|i: int| 0 <= i < rx.len() && rx[i]@ == n)
}

/// One translation step extends the produced prefix by one safe
/// parameter while the remaining suffix shrinks.
proof fn lemma_params_step(
    orig: Seq<NativeParam>,
    out_before: Seq<SafeParam>,
    item: SafeParam,
    out_after: Seq<SafeParam>,
    rest_before: Seq<NativeParam>,
    rest_after: Seq<NativeParam>,
)
    requires
        spec_safe_params(orig) == out_before + spec_safe_params(rest_before),
        spec_safe_params(rest_before) == seq![item] + spec_safe_params(rest_after),
        out_after == out_before.push(item),
    ensures
        spec_safe_params(orig) == out_after + spec_safe_params(rest_after),
{
    assert(out_after + spec_safe_params(rest_after) =~= out_before + (seq![item]
        + spec_safe_params(rest_after)));
}

/// A step that collects no name keeps the re-export invariant.
proof fn lemma_rx_skip(
    orig: Seq<NativeParam>,
    rx: Seq<String>,
    rest_before: Seq<NativeParam>,
    rest_after: Seq<NativeParam>,
)
    requires
        spec_reexports(orig) == names_of(rx).union(spec_reexports(rest_before)),
        spec_reexports(rest_before) == spec_reexports(rest_after),
    ensures
        spec_reexports(orig) == names_of(rx).union(spec_reexports(rest_after)),
{
}

/// A step that collects one name moves it from the remaining parameters'
/// contribution into the collected set.
proof fn lemma_rx_insert(
    orig: Seq<NativeParam>,
    rx_before: Seq<String>,
    rx_after: Seq<String>,
    en: Seq<char>,
    rest_before: Seq<NativeParam>,
    rest_after: Seq<NativeParam>,
)
    requires
        spec_reexports(orig) == names_of(rx_before).union(spec_reexports(rest_before)),
        spec_reexports(rest_before) == spec_reexports(rest_after).insert(en),
        names_of(rx_after) == names_of(rx_before).insert(en),
    ensures
        spec_reexports(orig) == names_of(rx_after).union(spec_reexports(rest_after)),
{
    assert(names_of(rx_before).union(spec_reexports(rest_after).insert(en)) =~= names_of(
        rx_before,
    ).insert(en).union(spec_reexports(rest_after)));
}

/// Appends one collected name; duplicates are allowed here and removed
/// when the global re-export list is merged.
fn push_name(rx: &mut Vec<String>, name: String)
    ensures
        names_of(final(rx)@) == names_of(old(rx)@).insert(name@),
{
    let ghost before: Seq<String> = rx@;
    let ghost added: Seq<char> = name@;
    rx.push(name);
    proof {
        assert forall|n: Seq<char>| #[trigger] names_of(rx@).contains(n) implies names_of(
            before,
        ).insert(added).contains(n) by {
            let i = choose|i: int| 0 <= i < rx@.len() && rx@[i]@ == n;
            if i < before.len() {
                assert(before[i]@ == n);
            }
        }
        assert forall|n: Seq<char>| names_of(before).insert(added).contains(n) implies #[trigger]
            names_of(rx@).contains(n) by {
            if n == added {
                assert(rx@[before.len() as int]@ == n);
            } else {
                let i = choose|i: int| 0 <= i < before.len() && before[i]@ == n;
                assert(rx@[i]@ == n);
            }
        }
        assert(names_of(rx@) =~= names_of(before).insert(added));
    }
}

/// Translates one native parameter list, consuming it; returns the safe
/// parameter list together with the type names noted for re-export.
pub fn safe_params(params: Vec<NativeParam>) -> (r: (Vec<SafeParam>, Vec<String>))
    ensures
        r.0@ == spec_safe_params(params@),
        names_of(r.1@) == spec_reexports(params@),
{
    let size_t = String::from_str("size_t");
    let c_char = String::from_str("c_char");
    let fill_dir = String::from_str("fuse_fill_dir_t");
    let ghost orig: Seq<NativeParam> = params@;
    let mut rest = params;
    let mut out: Vec<SafeParam> = Vec::new();
    let mut rx: Vec<String> = Vec::new();
    while rest.len() > 0
        invariant
            size_t@ == "size_t"@,
            c_char@ == "c_char"@,
            fill_dir@ == "fuse_fill_dir_t"@,
            spec_safe_params(orig) == out@ + spec_safe_params(rest@),
            spec_reexports(orig) == names_of(rx@).union(spec_reexports(rest@)),
        decreases rest@.len(),
    {
        let ghost before: Seq<NativeParam> = rest@;
        let ghost out_before: Seq<SafeParam> = out@;
        let ghost rx_before: Seq<String> = rx@;
        let p = rest.remove(0);
        proof {
            assert(rest@ =~= before.skip(1));
        }
        match p.ty {
            NativeType::Ptr { is_mut, elem } => {
                let ghost gelem: NativeType = *elem;
                let sized = rest.len() > 0 && rest[0].ty.is_name(&size_t);
                if sized {
                    let _len_param = rest.remove(0);
                    proof {
                        assert(rest@ =~= before.skip(2));
                    }
                    let item = SafeParam {
                        name: p.name,
                        ty: SafeType::Slice { is_mut, elem: Box::new(sub_type(&elem)) },
                        rule: MarshalRule::PairView { is_mut },
                    };
                    let ghost gitem: SafeParam = item;
                    out.push(item);
                    proof {
                        assert(spec_safe_params(before) == seq![gitem] + spec_safe_params(
                            before.skip(2),
                        ));
                        lemma_params_step(orig, out_before, gitem, out@, before, rest@);
                        assert(spec_reexports(before) == spec_reexports(before.skip(2)));
                        lemma_rx_skip(orig, rx@, before, rest@);
                    }
                } else if !is_mut && elem.is_name(&c_char) {
                    let item = SafeParam {
                        name: p.name,
                        ty: SafeType::Text,
                        rule: MarshalRule::Text,
                    };
                    let ghost gitem: SafeParam = item;
                    out.push(item);
                    proof {
                        assert(spec_safe_params(before) == seq![gitem] + spec_safe_params(
                            before.skip(1),
                        ));
                        lemma_params_step(orig, out_before, gitem, out@, before, rest@);
                        assert(spec_reexports(before) == spec_reexports(before.skip(1)));
                        lemma_rx_skip(orig, rx@, before, rest@);
                    }
                } else {
                    match &*elem {
                        NativeType::Name(en) => {
                            push_name(&mut rx, en.clone());
                        },
                        NativeType::Ptr { .. } => {},
                    }
                    let item = SafeParam {
                        name: p.name,
                        ty: SafeType::OptRef { is_mut, elem },
                        rule: MarshalRule::OptionRef { is_mut },
                    };
                    let ghost gitem: SafeParam = item;
                    out.push(item);
                    proof {
                        assert(spec_safe_params(before) == seq![gitem] + spec_safe_params(
                            before.skip(1),
                        ));
                        lemma_params_step(orig, out_before, gitem, out@, before, rest@);
                        match gelem {
                            NativeType::Name(en) => {
                                assert(spec_reexports(before) == spec_reexports(
                                    before.skip(1),
                                ).insert(en@));
                                lemma_rx_insert(orig, rx_before, rx@, en@, before, rest@);
                            },
                            NativeType::Ptr { .. } => {
                                assert(spec_reexports(before) == spec_reexports(before.skip(1)));
                                lemma_rx_skip(orig, rx@, before, rest@);
                            },
                        }
                    }
                }
            },
            NativeType::Name(n) => {
                if n.eq(&fill_dir) {
                    let item = SafeParam {
                        name: p.name,
                        ty: SafeType::FillDir,
                        rule: MarshalRule::WrapCallback,
                    };
                    let ghost gitem: SafeParam = item;
                    out.push(item);
                    proof {
                        assert(spec_safe_params(before) == seq![gitem] + spec_safe_params(
                            before.skip(1),
                        ));
                        lemma_params_step(orig, out_before, gitem, out@, before, rest@);
                        assert(spec_reexports(before) == spec_reexports(before.skip(1)));
                        lemma_rx_skip(orig, rx@, before, rest@);
                    }
                } else {
                    let ghost en: Seq<char> = n@;
                    push_name(&mut rx, n.clone());
                    let item = SafeParam {
                        name: p.name,
                        ty: SafeType::Name(n),
                        rule: MarshalRule::Pass,
                    };
                    let ghost gitem: SafeParam = item;
                    out.push(item);
                    proof {
                        assert(spec_safe_params(before) == seq![gitem] + spec_safe_params(
                            before.skip(1),
                        ));
                        lemma_params_step(orig, out_before, gitem, out@, before, rest@);
                        assert(spec_reexports(before) == spec_reexports(before.skip(1)).insert(
                            en,
                        ));
                        lemma_rx_insert(orig, rx_before, rx@, en, before, rest@);
                    }
                }
            },
        }
    }
    proof {
        assert(out@ + spec_safe_params(rest@) =~= out@);
        assert(names_of(rx@).union(spec_reexports(rest@)) =~= names_of(rx@));
    }
    (out, rx)
}

} // verus!
