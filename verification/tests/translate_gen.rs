use fuse_bridge::gen::{generate_interface, GeneratedInterface};
use fuse_bridge::ident::{fresh_ident, IDENT_CHARS, SUFFIX_LEN};
use fuse_bridge::schema::{FieldType, NativeParam, NativeType, TableField};
use fuse_bridge::translate::{safe_params, sub_type, MarshalRule, SafeType};

fn name(n: &str) -> NativeType {
    NativeType::Name(n.to_string())
}

fn ptr(is_mut: bool, elem: NativeType) -> NativeType {
    NativeType::Ptr { is_mut, elem: Box::new(elem) }
}

fn param(n: &str, ty: NativeType) -> NativeParam {
    NativeParam { name: n.to_string(), ty }
}

#[test]
fn sub_type_rewrites_c_char_and_pointers() {
    assert_eq!(sub_type(&name("c_char")), SafeType::Byte);
    assert_eq!(sub_type(&name("off_t")), SafeType::Name("off_t".to_string()));
    assert_eq!(
        sub_type(&ptr(true, name("c_char"))),
        SafeType::Ref { is_mut: true, elem: Box::new(SafeType::Byte) }
    );
}

#[test]
fn pointer_length_pair_becomes_one_view() {
    let (params, rx) = safe_params(vec![
        param("buf", ptr(true, name("c_char"))),
        param("size", name("size_t")),
        param("offset", name("off_t")),
    ]);
    assert_eq!(params.len(), 2);
    assert_eq!(params[0].name, "buf");
    assert_eq!(
        params[0].ty,
        SafeType::Slice { is_mut: true, elem: Box::new(SafeType::Byte) }
    );
    assert_eq!(params[0].rule, MarshalRule::PairView { is_mut: true });
    // The length parameter is consumed: it does not appear standalone.
    assert_eq!(params[1].name, "offset");
    assert_eq!(params[1].rule, MarshalRule::Pass);
    assert_eq!(rx, vec!["off_t".to_string()]);
}

#[test]
fn const_c_char_pointer_becomes_text() {
    let (params, rx) = safe_params(vec![param("path", ptr(false, name("c_char")))]);
    assert_eq!(params.len(), 1);
    assert_eq!(params[0].ty, SafeType::Text);
    assert_eq!(params[0].rule, MarshalRule::Text);
    assert!(rx.is_empty());
}

#[test]
fn other_pointer_becomes_optional_reference() {
    let (params, rx) = safe_params(vec![param("stbuf", ptr(true, name("stat")))]);
    assert_eq!(params.len(), 1);
    assert_eq!(
        params[0].ty,
        SafeType::OptRef { is_mut: true, elem: Box::new(name("stat")) }
    );
    assert_eq!(params[0].rule, MarshalRule::OptionRef { is_mut: true });
    assert_eq!(rx, vec!["stat".to_string()]);
}

#[test]
fn fill_dir_callback_is_wrapped() {
    let (params, rx) = safe_params(vec![param("filler", name("fuse_fill_dir_t"))]);
    assert_eq!(params.len(), 1);
    assert_eq!(params[0].ty, SafeType::FillDir);
    assert_eq!(params[0].rule, MarshalRule::WrapCallback);
    assert!(rx.is_empty());
}

fn getattr_field() -> TableField {
    TableField {
        name: "getattr".to_string(),
        ty: FieldType::Callback {
            params: vec![
                param("path", ptr(false, name("c_char"))),
                param("stbuf", ptr(true, name("stat"))),
            ],
            variadic: false,
            ret: name("c_int"),
        },
    }
}

fn open_field() -> TableField {
    TableField {
        name: "open".to_string(),
        ty: FieldType::Callback {
            params: vec![
                param("path", ptr(false, name("c_char"))),
                param("fi", ptr(true, name("fuse_file_info"))),
            ],
            variadic: false,
            ret: name("c_int"),
        },
    }
}

#[test]
fn generation_keeps_conforming_slots_in_order() {
    let schema = vec![
        getattr_field(),
        // Not a callback: never generated.
        TableField { name: "flag_nullpath_ok".to_string(), ty: FieldType::Plain(name("u32")) },
        // Variadic tail: excluded entirely.
        TableField {
            name: "ioctl_like".to_string(),
            ty: FieldType::Callback {
                params: vec![param("path", ptr(false, name("c_char")))],
                variadic: true,
                ret: name("c_int"),
            },
        },
        // Wrong return convention: excluded entirely.
        TableField {
            name: "init_like".to_string(),
            ty: FieldType::Callback {
                params: vec![param("conn", ptr(true, name("fuse_conn_info")))],
                variadic: false,
                ret: ptr(true, name("c_void")),
            },
        },
        open_field(),
    ];
    let gi: GeneratedInterface = generate_interface(schema, &Vec::new());
    assert_eq!(gi.slots.len(), 2);
    assert_eq!(gi.slots[0].name, "getattr");
    assert_eq!(gi.slots[1].name, "open");
    assert_eq!(gi.slots[0].params.len(), 2);
    assert_eq!(gi.slots[0].params[0].ty, SafeType::Text);
    assert_eq!(
        gi.slots[0].params[1].ty,
        SafeType::OptRef { is_mut: true, elem: Box::new(name("stat")) }
    );
}

#[test]
fn generation_honors_the_blacklist() {
    let schema = vec![getattr_field(), open_field()];
    let gi = generate_interface(schema, &vec!["getattr".to_string()]);
    assert_eq!(gi.slots.len(), 1);
    assert_eq!(gi.slots[0].name, "open");
}

#[test]
fn reexports_are_deduplicated_and_primitive_free() {
    let schema = vec![
        getattr_field(),
        // A second slot mentioning stat again, plus a primitive.
        TableField {
            name: "fgetattr".to_string(),
            ty: FieldType::Callback {
                params: vec![
                    param("path", ptr(false, name("c_char"))),
                    param("stbuf", ptr(true, name("stat"))),
                    param("pad", name("u32")),
                    param("mode", name("mode_t")),
                ],
                variadic: false,
                ret: name("c_int"),
            },
        },
    ];
    let gi = generate_interface(schema, &Vec::new());
    let stat_count = gi.reexports.iter().filter(|s| s.as_str() == "stat").count();
    assert_eq!(stat_count, 1);
    assert!(gi.reexports.iter().any(|s| s == "mode_t"));
    assert!(!gi.reexports.iter().any(|s| s == "u32"));
}

#[test]
fn read_slot_translates_to_the_capability_signature() {
    // The native read slot's translation is exactly the shape the
    // capability method takes: borrowed text, one mutable view standing
    // for the (pointer, length) pair, the offset passed through, and an
    // optional mutable reference to the bookkeeping record.
    let (params, _) = safe_params(vec![
        param("path", ptr(false, name("c_char"))),
        param("buf", ptr(true, name("c_char"))),
        param("size", name("size_t")),
        param("offset", name("off_t")),
        param("fi", ptr(true, name("fuse_file_info"))),
    ]);
    assert_eq!(params.len(), 4);
    assert_eq!(params[0].ty, SafeType::Text);
    assert_eq!(
        params[1].ty,
        SafeType::Slice { is_mut: true, elem: Box::new(SafeType::Byte) }
    );
    assert_eq!(params[2].ty, SafeType::Name("off_t".to_string()));
    assert_eq!(
        params[3].ty,
        SafeType::OptRef { is_mut: true, elem: Box::new(name("fuse_file_info")) }
    );
}

#[test]
fn fresh_idents_append_a_suffix_from_the_charset() {
    let base = "fuse_shim_read";
    let ident = fresh_ident(base);
    assert_eq!(ident.chars().count(), base.chars().count() + SUFFIX_LEN);
    assert!(ident.starts_with(base));
    for c in ident[base.len()..].chars() {
        assert!(IDENT_CHARS.contains(c), "unexpected suffix character {c:?}");
    }
}

#[test]
fn fresh_idents_are_fresh_across_calls() {
    // Ten random characters from a 53-character set: two equal suffixes in
    // a row would be astronomically unlikely; a constant suffix would make
    // the generated locals collide.
    let a = fresh_ident("x");
    let b = fresh_ident("x");
    let c = fresh_ident("x");
    assert!(a != b || b != c);
}
