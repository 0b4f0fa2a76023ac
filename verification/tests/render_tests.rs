use render_plan::fragment::ValueExpr;
use render_plan::graph::{Item, TypeGraph, TypeKind};
use render_plan::render::{render_field, render_record, BitfieldMember, Field, RecordKind};
use render_plan::resolve::resolve;

fn item(name: &str, whitelisted: bool, opaque: bool, kind: TypeKind) -> Item {
    Item { name: name.to_string(), whitelisted, opaque, kind }
}

fn listed(kind: TypeKind) -> Item {
    item("t", true, false, kind)
}

fn record_item(name: &str) -> Item {
    item(name, true, false, TypeKind::Record)
}

fn named_member(name: &str, ty: usize) -> Field {
    Field::DataMember { name: Some(name.to_string()), ty }
}

/// Counts placeholder markers the way the host formatter reads them: `{{`
/// is an escaped literal brace, any other `{` opens a placeholder.
fn count_placeholders(s: &str) -> usize {
    let cs: Vec<char> = s.chars().collect();
    let mut i: usize = 0;
    let mut n: usize = 0;
    while i < cs.len() {
        if cs[i] == '{' {
            if i + 1 < cs.len() && cs[i + 1] == '{' {
                i += 2;
            } else {
                n += 1;
                i += 1;
            }
        } else {
            i += 1;
        }
    }
    n
}

fn field_access(name: &str) -> ValueExpr {
    ValueExpr::FieldAccess { name: name.to_string() }
}

#[test]
fn scalar_field_delegates() {
    let g = TypeGraph { items: vec![listed(TypeKind::Scalar)] };
    let fields = vec![named_member("a", 0)];
    let r = render_record(&g, &record_item("S"), &fields, RecordKind::Struct);
    assert_eq!(r.template, "S {{ a: {:?} }}");
    assert_eq!(r.values, vec![field_access("a")]);
    assert_eq!(count_placeholders(&r.template), r.values.len());
}

#[test]
fn opacity_suppresses_rendering() {
    let g = TypeGraph { items: vec![listed(TypeKind::Scalar)] };
    let fields = vec![named_member("a", 0), named_member("b", 0)];
    let hidden = item("Secret", true, true, TypeKind::Record);
    let r = render_record(&g, &hidden, &fields, RecordKind::Struct);
    assert_eq!(r.template, "Secret {{ opaque }}");
    assert_eq!(r.values.len(), 0);
}

#[test]
fn unlisted_field_omitted() {
    let g = TypeGraph {
        items: vec![listed(TypeKind::Scalar), item("hidden", false, false, TypeKind::Scalar)],
    };
    let fields = vec![named_member("a", 0), named_member("b", 1)];
    let r = render_record(&g, &record_item("Pair"), &fields, RecordKind::Struct);
    assert_eq!(r.template, "Pair {{ a: {:?} }}");
    assert_eq!(r.values, vec![field_access("a")]);
}

#[test]
fn union_never_inspects_members() {
    let g = TypeGraph {
        items: vec![
            listed(TypeKind::Scalar),
            listed(TypeKind::Scalar),
            listed(TypeKind::Scalar),
        ],
    };
    let fields = vec![named_member("a", 0), named_member("b", 1), named_member("c", 2)];
    let r = render_record(&g, &record_item("U"), &fields, RecordKind::Union);
    assert_eq!(r.template, "U {{ union }}");
    assert_eq!(r.values.len(), 0);
}

#[test]
fn bitfield_expansion() {
    let g = TypeGraph { items: vec![] };
    let unit = Field::BitfieldUnit {
        members: vec![
            BitfieldMember { name: Some("a".to_string()), width: 3 },
            BitfieldMember { name: Some("b".to_string()), width: 5 },
            BitfieldMember { name: None, width: 2 },
        ],
    };
    let frags = render_field(&g, &unit);
    assert_eq!(frags.len(), 2);
    assert_eq!(frags[0].template, "a : {:?}");
    assert_eq!(frags[1].template, "b : {:?}");
    assert_eq!(frags[0].values, vec![ValueExpr::AccessorCall { name: "a".to_string() }]);
    assert_eq!(frags[1].values, vec![ValueExpr::AccessorCall { name: "b".to_string() }]);

    let r = render_record(&g, &record_item("B"), &vec![unit], RecordKind::Struct);
    assert_eq!(r.template, "B {{ a : {:?}, b : {:?} }}");
    assert_eq!(count_placeholders(&r.template), 2);
    assert_eq!(r.values.len(), 2);
}

#[test]
fn array_at_threshold_delegates() {
    let g = TypeGraph {
        items: vec![
            listed(TypeKind::Scalar),
            listed(TypeKind::Array { element: 0, length: 31 }),
        ],
    };
    let r = resolve(&g, 1, "arr").unwrap();
    assert_eq!(r.template, "arr: {:?}");
    assert_eq!(r.values, vec![field_access("arr")]);
}

#[test]
fn array_past_threshold_joins_elements() {
    let g = TypeGraph {
        items: vec![
            listed(TypeKind::Scalar),
            listed(TypeKind::Array { element: 0, length: 32 }),
        ],
    };
    let r = resolve(&g, 1, "arr").unwrap();
    assert_eq!(r.template, "arr: [{}]");
    assert_eq!(r.values, vec![ValueExpr::ArrayJoin { name: "arr".to_string() }]);
    assert_eq!(count_placeholders(&r.template), 1);
}

#[test]
fn generic_array_renders_length_marker() {
    let g = TypeGraph {
        items: vec![
            listed(TypeKind::GenericParameter),
            listed(TypeKind::Array { element: 0, length: 7 }),
        ],
    };
    let r = resolve(&g, 1, "xs").unwrap();
    assert_eq!(r.template, "xs: Array with length 7");
    assert_eq!(r.values.len(), 0);

    let alone = resolve(&g, 0, "g").unwrap();
    assert_eq!(alone.template, "g: Non-debuggable generic");
    assert_eq!(alone.values.len(), 0);
}

#[test]
fn generic_array_length_in_decimal() {
    let g = TypeGraph {
        items: vec![
            listed(TypeKind::GenericParameter),
            listed(TypeKind::Array { element: 0, length: 1234 }),
        ],
    };
    let r = resolve(&g, 1, "xs").unwrap();
    assert_eq!(r.template, "xs: Array with length 1234");
    assert_eq!(r.values.len(), 0);
}

#[test]
fn nested_generic_array_propagates() {
    // an array of arrays of a generic parameter is still generic-involving
    let g = TypeGraph {
        items: vec![
            listed(TypeKind::GenericParameter),
            listed(TypeKind::Array { element: 0, length: 4 }),
            listed(TypeKind::Array { element: 1, length: 2 }),
        ],
    };
    let r = resolve(&g, 2, "m").unwrap();
    assert_eq!(r.template, "m: Array with length 2");
    assert_eq!(r.values.len(), 0);
}

#[test]
fn alias_chain_is_transparent() {
    let g = TypeGraph {
        items: vec![
            listed(TypeKind::Scalar),
            listed(TypeKind::AliasLike { target: 0 }),
            listed(TypeKind::AliasLike { target: 1 }),
            listed(TypeKind::AliasLike { target: 2 }),
        ],
    };
    let through_chain = resolve(&g, 3, "x").unwrap();
    let direct = resolve(&g, 0, "x").unwrap();
    assert_eq!(through_chain, direct);
    assert_eq!(through_chain.template, "x: {:?}");
}

#[test]
fn alias_to_unlisted_target_is_omitted() {
    let g = TypeGraph {
        items: vec![
            item("hidden", false, false, TypeKind::Scalar),
            listed(TypeKind::AliasLike { target: 0 }),
        ],
    };
    assert!(resolve(&g, 1, "x").is_none());
}

#[test]
fn unsupported_function_pointer_is_marked() {
    let g = TypeGraph {
        items: vec![
            listed(TypeKind::FunctionSignature { trivially_renderable: false }),
            listed(TypeKind::AliasLike { target: 0 }),
            listed(TypeKind::Pointer { inner: 1 }),
        ],
    };
    let r = resolve(&g, 2, "cb").unwrap();
    assert_eq!(r.template, "cb: FunctionPointer");
    assert_eq!(r.values.len(), 0);
}

#[test]
fn supported_function_pointer_renders_its_value() {
    let g = TypeGraph {
        items: vec![
            listed(TypeKind::FunctionSignature { trivially_renderable: true }),
            listed(TypeKind::Pointer { inner: 0 }),
        ],
    };
    let r = resolve(&g, 1, "cb").unwrap();
    assert_eq!(r.template, "cb: {:?}");
    assert_eq!(r.values, vec![field_access("cb")]);
}

#[test]
fn pointer_to_data_renders_pointer_value() {
    let g = TypeGraph {
        items: vec![listed(TypeKind::Scalar), listed(TypeKind::Pointer { inner: 0 })],
    };
    let r = resolve(&g, 1, "p").unwrap();
    assert_eq!(r.template, "p: {:?}");
    assert_eq!(r.values, vec![field_access("p")]);
}

#[test]
fn template_instantiation_opacity() {
    let g = TypeGraph {
        items: vec![
            listed(TypeKind::TemplateInstantiation { opaque_to_host: true }),
            listed(TypeKind::TemplateInstantiation { opaque_to_host: false }),
        ],
    };
    let hidden = resolve(&g, 0, "t").unwrap();
    assert_eq!(hidden.template, "t: opaque");
    assert_eq!(hidden.values.len(), 0);
    let plain = resolve(&g, 1, "t").unwrap();
    assert_eq!(plain.template, "t: {:?}");
    assert_eq!(plain.values, vec![field_access("t")]);
}

#[test]
fn opaque_kind_is_dropped() {
    let g = TypeGraph { items: vec![listed(TypeKind::Opaque)] };
    assert!(resolve(&g, 0, "x").is_none());
}

#[test]
fn opacity_flagged_reference_is_dropped() {
    let g = TypeGraph { items: vec![item("t", true, true, TypeKind::Scalar)] };
    assert!(resolve(&g, 0, "x").is_none());
}

#[test]
fn unnamed_member_is_skipped() {
    let g = TypeGraph { items: vec![listed(TypeKind::Scalar)] };
    let fields = vec![Field::DataMember { name: None, ty: 0 }, named_member("b", 0)];
    let r = render_record(&g, &record_item("S"), &fields, RecordKind::Struct);
    assert_eq!(r.template, "S {{ b: {:?} }}");
    assert_eq!(r.values, vec![field_access("b")]);
}

#[test]
fn empty_struct_keeps_braces() {
    let g = TypeGraph { items: vec![] };
    let r = render_record(&g, &record_item("Empty"), &vec![], RecordKind::Struct);
    assert_eq!(r.template, "Empty {{  }}");
    assert_eq!(r.values.len(), 0);
    assert_eq!(count_placeholders(&r.template), 0);
}

#[test]
fn all_padding_bitfield_unit_contributes_nothing() {
    let g = TypeGraph { items: vec![listed(TypeKind::Scalar)] };
    let unit = Field::BitfieldUnit {
        members: vec![BitfieldMember { name: None, width: 8 }],
    };
    let fields = vec![unit, named_member("a", 0)];
    let r = render_record(&g, &record_item("S"), &fields, RecordKind::Struct);
    assert_eq!(r.template, "S {{ a: {:?} }}");
    assert_eq!(r.values, vec![field_access("a")]);
}

#[test]
fn parity_holds_on_a_mixed_record() {
    let g = TypeGraph {
        items: vec![
            listed(TypeKind::Scalar),
            listed(TypeKind::GenericParameter),
            listed(TypeKind::Array { element: 0, length: 100 }),
            listed(TypeKind::Pointer { inner: 0 }),
            item("hidden", false, false, TypeKind::Scalar),
        ],
    };
    let fields = vec![
        named_member("a", 0),
        named_member("g", 1),
        named_member("big", 2),
        named_member("p", 3),
        named_member("dropped", 4),
        Field::BitfieldUnit {
            members: vec![
                BitfieldMember { name: Some("x".to_string()), width: 1 },
                BitfieldMember { name: None, width: 7 },
            ],
        },
    ];
    let r = render_record(&g, &record_item("Mix"), &fields, RecordKind::Struct);
    assert_eq!(
        r.template,
        "Mix {{ a: {:?}, g: Non-debuggable generic, big: [{}], p: {:?}, x : {:?} }}"
    );
    assert_eq!(count_placeholders(&r.template), r.values.len());
    assert_eq!(r.values.len(), 4);
}
