//! The library's stated laws, proved once and for all inputs.
//!
//! The central one is placeholder/value parity: every rendering the library
//! produces carries exactly as many placeholder markers in its template as
//! it has value-extraction expressions. The others pin down the individual
//! rendering decisions: opacity and union bodies, omission of references
//! outside the output surface, alias transparency, generic arrays and
//! function pointers.

use vstd::prelude::*;
use crate::decimal::decimal_str;
use crate::decimal::lemma_decimal_str_brace_free;
use crate::decimal::lemma_decimal_str_nonempty;
use crate::fragment::Rendering;
use crate::fragment::ValueModel;
use crate::fragment::all_frags_ok;
use crate::fragment::frag_ok;
use crate::fragment::lemma_all_frags_ok_concat;
use crate::graph::Item;
use crate::graph::TypeGraph;
use crate::graph::TypeId;
use crate::graph::TypeKind;
use crate::render::BitfieldMember;
use crate::render::Field;
use crate::render::RecordKind;
use crate::render::bitfield_fragment;
use crate::render::bitfield_fragments;
use crate::render::joined_template;
use crate::render::joined_values;
use crate::render::record_fragments;
use crate::render::spec_render_field;
use crate::render::spec_render_record;
use crate::resolve::SMALL_ARRAY_MAX;
use crate::resolve::array_join_fragment;
use crate::resolve::delegate_fragment;
use crate::resolve::marker_fragment;
use crate::resolve::spec_resolve;
use crate::template::brace_free;
use crate::template::lemma_brace_free_concat;
use crate::template::lemma_brace_free_count;
use crate::template::lemma_count_concat;
use crate::template::placeholder_count;

verus! {

/// Placeholder counts and first characters of the template pieces the
/// library writes.
proof fn lemma_literal_facts()
    ensures
        placeholder_count(": {:?}"@) == 1,
        ": {:?}"@.len() > 0 && ": {:?}"@[0] == ':',
        placeholder_count(" : {:?}"@) == 1,
        " : {:?}"@.len() > 0 && " : {:?}"@[0] == ' ',
        placeholder_count(": [{}]"@) == 1,
        ": [{}]"@.len() > 0 && ": [{}]"@[0] == ':',
        placeholder_count(" {{ "@) == 0,
        " {{ "@.len() > 0 && " {{ "@[0] == ' ',
        placeholder_count(": opaque"@) == 0,
        ": opaque"@.len() > 0 && ": opaque"@[0] == ':',
        placeholder_count(": Non-debuggable generic"@) == 0,
        ": Non-debuggable generic"@.len() > 0 && ": Non-debuggable generic"@[0] == ':',
        placeholder_count(": Array with length "@) == 0,
        ": Array with length "@.len() > 0 && ": Array with length "@[0] == ':',
        brace_free(": Array with length "@),
        placeholder_count(": FunctionPointer"@) == 0,
        ": FunctionPointer"@.len() > 0 && ": FunctionPointer"@[0] == ':',
        placeholder_count(", "@) == 0,
        ", "@.len() > 0 && ", "@[0] == ',',
        placeholder_count(" }}"@) == 0,
        " }}"@.len() > 0 && " }}"@[0] == ' ',
        placeholder_count("opaque"@) == 0,
        "opaque"@.len() > 0 && "opaque"@[0] == 'o',
        placeholder_count("union"@) == 0,
        "union"@.len() > 0 && "union"@[0] == 'u',
{
    reveal_strlit(": {:?}");
    reveal_strlit(" : {:?}");
    reveal_strlit(": [{}]");
    reveal_strlit(" {{ ");
    reveal_strlit(": opaque");
    reveal_strlit(": Non-debuggable generic");
    reveal_strlit(": Array with length ");
    reveal_strlit(": FunctionPointer");
    reveal_strlit(", ");
    reveal_strlit(" }}");
    reveal_strlit("opaque");
    reveal_strlit("union");
    reveal_with_fuel(placeholder_count, 9);
    assert(placeholder_count(": {:?}"@) == 1);
    assert(placeholder_count(" : {:?}"@) == 1);
    assert(placeholder_count(": [{}]"@) == 1);
    assert(placeholder_count(" {{ "@) == 0);
    assert(brace_free(": opaque"@));
    lemma_brace_free_count(": opaque"@);
    assert(brace_free(": Non-debuggable generic"@));
    lemma_brace_free_count(": Non-debuggable generic"@);
    assert(brace_free(": Array with length "@));
    lemma_brace_free_count(": Array with length "@);
    assert(brace_free(": FunctionPointer"@));
    lemma_brace_free_count(": FunctionPointer"@);
    assert(brace_free(", "@));
    lemma_brace_free_count(", "@);
    assert(brace_free(" }}"@));
    lemma_brace_free_count(" }}"@);
    assert(brace_free("opaque"@));
    lemma_brace_free_count("opaque"@);
    assert(brace_free("union"@));
    lemma_brace_free_count("union"@);
}

/// Parity and a safe first character for a label followed by a suffix
/// holding `marks` placeholders.
proof fn lemma_labelled_count(label: Seq<char>, suffix: Seq<char>, marks: nat)
    requires
        brace_free(label),
        placeholder_count(suffix) == marks,
        suffix.len() > 0,
        suffix[0] != '{',
    ensures
        placeholder_count(label + suffix) == marks,
        (label + suffix).len() > 0,
        (label + suffix)[0] != '{',
{
    lemma_brace_free_count(label);
    lemma_count_concat(label, suffix);
    if label.len() > 0 {
        assert((label + suffix)[0] == label[0]);
    } else {
        assert((label + suffix)[0] == suffix[0]);
    }
}

proof fn lemma_delegate_frag_ok(label: Seq<char>)
    requires
        brace_free(label),
    ensures
        frag_ok(delegate_fragment(label)),
{
    lemma_literal_facts();
    lemma_labelled_count(label, ": {:?}"@, 1);
}

proof fn lemma_marker_frag_ok(label: Seq<char>, marker: Seq<char>)
    requires
        brace_free(label),
        placeholder_count(marker) == 0,
        marker.len() > 0,
        marker[0] != '{',
    ensures
        frag_ok(marker_fragment(label, marker)),
{
    lemma_labelled_count(label, marker, 0);
}

proof fn lemma_array_join_frag_ok(label: Seq<char>)
    requires
        brace_free(label),
    ensures
        frag_ok(array_join_fragment(label)),
{
    lemma_literal_facts();
    lemma_labelled_count(label, ": [{}]"@, 1);
}

proof fn lemma_bitfield_frag_ok(name: Seq<char>)
    requires
        brace_free(name),
    ensures
        frag_ok(bitfield_fragment(name)),
{
    lemma_literal_facts();
    lemma_labelled_count(name, " : {:?}"@, 1);
}

proof fn lemma_length_marker_facts(length: usize)
    ensures
        placeholder_count(": Array with length "@ + decimal_str(length as nat)) == 0,
        (": Array with length "@ + decimal_str(length as nat)).len() > 0,
        (": Array with length "@ + decimal_str(length as nat))[0] == ':',
{
    lemma_literal_facts();
    lemma_decimal_str_brace_free(length as nat);
    lemma_decimal_str_nonempty(length as nat);
    lemma_brace_free_concat(": Array with length "@, decimal_str(length as nat));
    lemma_brace_free_count(": Array with length "@ + decimal_str(length as nat));
    assert((": Array with length "@ + decimal_str(length as nat))[0] == ':');
}

/// Every fragment the resolver yields is healthy: its placeholders match
/// its values one for one, and its template neither is empty nor opens with
/// a brace. Labels arrive from the identifier layer and hold no brace.
pub proof fn lemma_resolve_frag_ok(g: TypeGraph, t: int, label: Seq<char>)
    requires
        brace_free(label),
    ensures
        spec_resolve(g, t, label) matches Some(fragment) ==> frag_ok(fragment),
    decreases t,
{
    if g.in_bounds(t) && g.items@[t].whitelisted && !g.items@[t].opaque {
        match g.items@[t].kind {
            TypeKind::Scalar => lemma_delegate_frag_ok(label),
            TypeKind::Record => lemma_delegate_frag_ok(label),
            TypeKind::FunctionSignature { .. } => lemma_delegate_frag_ok(label),
            TypeKind::TemplateInstantiation { opaque_to_host } => {
                lemma_literal_facts();
                if opaque_to_host {
                    lemma_marker_frag_ok(label, ": opaque"@);
                } else {
                    lemma_delegate_frag_ok(label);
                }
            },
            TypeKind::GenericParameter => {
                lemma_literal_facts();
                lemma_marker_frag_ok(label, ": Non-debuggable generic"@);
            },
            TypeKind::Array { element, length } => {
                if g.involves_generic(element as int) {
                    lemma_length_marker_facts(length);
                    lemma_marker_frag_ok(
                        label,
                        ": Array with length "@ + decimal_str(length as nat),
                    );
                } else if length <= SMALL_ARRAY_MAX {
                    lemma_delegate_frag_ok(label);
                } else {
                    lemma_array_join_frag_ok(label);
                }
            },
            TypeKind::AliasLike { target } => {
                if (target as int) < t {
                    lemma_resolve_frag_ok(g, target as int, label);
                }
            },
            TypeKind::Pointer { inner } => {
                lemma_literal_facts();
                match g.canonical_kind(inner as int) {
                    TypeKind::FunctionSignature { trivially_renderable } => {
                        if trivially_renderable {
                            lemma_delegate_frag_ok(label);
                        } else {
                            lemma_marker_frag_ok(label, ": FunctionPointer"@);
                        }
                    },
                    _ => lemma_delegate_frag_ok(label),
                }
            },
            TypeKind::Opaque => {},
        }
    }
}

proof fn lemma_bitfield_fragments_ok(ms: Seq<BitfieldMember>)
    requires
        forall|i: int|
            0 <= i < ms.len() ==> match (#[trigger] ms[i]).name {
                Option::Some(n) => brace_free(n@),
                Option::None => true,
            },
    ensures
        all_frags_ok(bitfield_fragments(ms)),
    decreases ms.len(),
{
    if ms.len() > 0 {
        assert(forall|i: int| 0 <= i < ms.drop_last().len() ==> ms.drop_last()[i] == ms[i]);
        lemma_bitfield_fragments_ok(ms.drop_last());
        match ms.last().name {
            Option::Some(n) => {
                lemma_bitfield_frag_ok(n@);
                assert(all_frags_ok(seq![bitfield_fragment(n@)]));
            },
            Option::None => {},
        }
        lemma_all_frags_ok_concat(
            bitfield_fragments(ms.drop_last()),
            crate::render::bitfield_member_fragments(ms.last()),
        );
    }
}

/// Every fragment a field contributes is healthy.
pub proof fn lemma_render_field_ok(g: TypeGraph, f: Field)
    requires
        f.names_brace_free(),
    ensures
        all_frags_ok(spec_render_field(g, f)),
{
    match f {
        Field::DataMember { name, ty } => match name {
            Option::Some(n) => {
                lemma_resolve_frag_ok(g, ty as int, n@);
            },
            Option::None => {},
        },
        Field::BitfieldUnit { members } => {
            lemma_bitfield_fragments_ok(members@);
        },
    }
}

/// Every fragment of a field sequence is healthy.
pub proof fn lemma_record_fragments_ok(g: TypeGraph, fields: Seq<Field>)
    requires
        forall|i: int| 0 <= i < fields.len() ==> (#[trigger] fields[i]).names_brace_free(),
    ensures
        all_frags_ok(record_fragments(g, fields)),
    decreases fields.len(),
{
    if fields.len() > 0 {
        assert(forall|i: int|
            0 <= i < fields.drop_last().len() ==> fields.drop_last()[i] == fields[i]);
        lemma_record_fragments_ok(g, fields.drop_last());
        lemma_render_field_ok(g, fields.last());
        lemma_all_frags_ok_concat(
            record_fragments(g, fields.drop_last()),
            spec_render_field(g, fields.last()),
        );
    }
}

/// Joining healthy fragments with `", "` keeps parity, and the joined
/// template is empty or opens with the first fragment's first character.
pub proof fn lemma_joined_parity(frags: Seq<Rendering>)
    requires
        all_frags_ok(frags),
    ensures
        placeholder_count(joined_template(frags)) == joined_values(frags).len(),
        frags.len() > 0 ==> joined_template(frags).len() > 0 && joined_template(frags)[0] != '{',
    decreases frags.len(),
{
    lemma_literal_facts();
    if frags.len() == 0 {
    } else if frags.len() == 1 {
        assert(frag_ok(frags[0]));
        assert(frags.drop_last().len() == 0);
        assert(joined_values(frags.drop_last()) =~= Seq::<ValueModel>::empty());
        assert(frags.last() == frags[0]);
        assert(joined_values(frags) =~= frags[0].values);
    } else {
        let rest = frags.drop_last();
        let last = frags.last();
        assert(forall|i: int| 0 <= i < rest.len() ==> rest[i] == frags[i]);
        lemma_joined_parity(rest);
        assert(frag_ok(last));
        lemma_count_concat(joined_template(rest), ", "@);
        lemma_count_concat(joined_template(rest) + ", "@, last.template);
        assert((joined_template(rest) + ", "@ + last.template)[0] == joined_template(rest)[0]);
        assert(joined_values(frags).len() == joined_values(rest).len() + last.values.len());
    }
}

/// LAW — placeholder/value parity: for every produced rendering procedure,
/// the number of placeholder markers in the template equals the number of
/// value-extraction expressions. Names come from the upstream identifier
/// layer and therefore hold no opening brace.
pub proof fn lemma_render_record_parity(
    g: TypeGraph,
    item: Item,
    fields: Seq<Field>,
    kind: RecordKind,
)
    requires
        brace_free(item.name@),
        forall|i: int| 0 <= i < fields.len() ==> (#[trigger] fields[i]).names_brace_free(),
    ensures
        placeholder_count(spec_render_record(g, item, fields, kind).template)
            == spec_render_record(g, item, fields, kind).values.len(),
{
    lemma_literal_facts();
    lemma_brace_free_count(item.name@);
    lemma_count_concat(item.name@, " {{ "@);
    let head = item.name@ + " {{ "@;
    if item.opaque {
        lemma_count_concat(head, "opaque"@);
        lemma_count_concat(head + "opaque"@, " }}"@);
    } else if kind == RecordKind::Union {
        lemma_count_concat(head, "union"@);
        lemma_count_concat(head + "union"@, " }}"@);
    } else {
        lemma_record_fragments_ok(g, fields);
        lemma_joined_parity(record_fragments(g, fields));
        let body = joined_template(record_fragments(g, fields));
        lemma_count_concat(head, body);
        lemma_count_concat(head + body, " }}"@);
    }
}

/// LAW — opacity suppresses rendering: an opacity-flagged item renders as
/// `Name {{ opaque }}` with no value expressions, whatever its fields and
/// whatever its kind.
pub proof fn lemma_opacity_suppresses_rendering(
    g: TypeGraph,
    item: Item,
    fields: Seq<Field>,
    kind: RecordKind,
)
    requires
        item.opaque,
    ensures
        spec_render_record(g, item, fields, kind).template == item.name@ + " {{ opaque }}"@,
        spec_render_record(g, item, fields, kind).values == Seq::<ValueModel>::empty(),
{
    reveal_strlit(" {{ ");
    reveal_strlit("opaque");
    reveal_strlit(" }}");
    reveal_strlit(" {{ opaque }}");
    assert(item.name@ + " {{ "@ + "opaque"@ + " }}"@ =~= item.name@ + " {{ opaque }}"@);
}

/// LAW — non-whitelisted reference omission: a trailing field whose type is
/// not part of the output surface changes nothing in the rendering — its
/// label, its value and the join separator are all absent.
pub proof fn lemma_unlisted_reference_omitted(
    g: TypeGraph,
    item: Item,
    fa: Field,
    name_b: Option<String>,
    ty_b: TypeId,
)
    requires
        (ty_b as int) < g.spec_len(),
        !g.items@[ty_b as int].whitelisted,
    ensures
        spec_render_record(
            g,
            item,
            seq![fa, Field::DataMember { name: name_b, ty: ty_b }],
            RecordKind::Struct,
        ) == spec_render_record(g, item, seq![fa], RecordKind::Struct),
{
    let fb = Field::DataMember { name: name_b, ty: ty_b };
    let both = seq![fa, fb];
    assert(spec_render_field(g, fb) =~= Seq::<Rendering>::empty());
    assert(both.drop_last() =~= seq![fa]);
    assert(both.last() == fb);
    assert(record_fragments(g, both) =~= record_fragments(g, seq![fa]));
}

/// LAW — a union never inspects its members: whatever the fields are, the
/// rendering is `Name {{ union }}` with no value expressions.
pub proof fn lemma_union_never_inspects_members(g: TypeGraph, item: Item, fields: Seq<Field>)
    requires
        !item.opaque,
    ensures
        spec_render_record(g, item, fields, RecordKind::Union).template == item.name@
            + " {{ union }}"@,
        spec_render_record(g, item, fields, RecordKind::Union).values == Seq::<
            ValueModel,
        >::empty(),
        spec_render_record(g, item, fields, RecordKind::Union) == spec_render_record(
            g,
            item,
            Seq::<Field>::empty(),
            RecordKind::Union,
        ),
{
    reveal_strlit(" {{ ");
    reveal_strlit("union");
    reveal_strlit(" }}");
    reveal_strlit(" {{ union }}");
    assert(item.name@ + " {{ "@ + "union"@ + " }}"@ =~= item.name@ + " {{ union }}"@);
}

/// LAW — generic parameters propagate through arrays: an array whose
/// element is a generic parameter renders as the literal
/// `label: Array with length N` with no value expression, even though the
/// element on its own would render as the non-debuggable-generic marker.
pub proof fn lemma_generic_array_propagation(
    g: TypeGraph,
    t: int,
    element: TypeId,
    length: usize,
    label: Seq<char>,
)
    requires
        g.in_bounds(t),
        g.items@[t].whitelisted,
        !g.items@[t].opaque,
        g.items@[t].kind == (TypeKind::Array { element, length }),
        g.in_bounds(element as int),
        g.items@[element as int].kind == TypeKind::GenericParameter,
    ensures
        spec_resolve(g, t, label) == Some(
            marker_fragment(label, ": Array with length "@ + decimal_str(length as nat)),
        ),
        g.items@[element as int].whitelisted && !g.items@[element as int].opaque
            ==> spec_resolve(g, element as int, label) == Some(
            marker_fragment(label, ": Non-debuggable generic"@),
        ),
{
    assert(g.involves_generic(element as int));
}

/// LAW — alias transparency: resolving an alias-like node yields exactly
/// what resolving its target yields, label and all.
pub proof fn lemma_alias_transparency(g: TypeGraph, t: int, target: TypeId, label: Seq<char>)
    requires
        g.in_bounds(t),
        g.items@[t].whitelisted,
        !g.items@[t].opaque,
        g.items@[t].kind == (TypeKind::AliasLike { target }),
        (target as int) < t,
    ensures
        spec_resolve(g, t, label) == spec_resolve(g, target as int, label),
{
}

/// LAW — the function-pointer special case: a pointer whose alias-stripped
/// pointee is a function signature outside the host's automatic rendering
/// set becomes the literal `label: FunctionPointer` with no value; with a
/// supported signature the pointer's own value is rendered instead, and the
/// pointee is never dereferenced.
pub proof fn lemma_function_pointer_cases(g: TypeGraph, t: int, inner: TypeId, label: Seq<char>)
    requires
        g.in_bounds(t),
        g.items@[t].whitelisted,
        !g.items@[t].opaque,
        g.items@[t].kind == (TypeKind::Pointer { inner }),
    ensures
        g.canonical_kind(inner as int) == (TypeKind::FunctionSignature {
            trivially_renderable: false,
        }) ==> spec_resolve(g, t, label) == Some(marker_fragment(label, ": FunctionPointer"@)),
        g.canonical_kind(inner as int) == (TypeKind::FunctionSignature {
            trivially_renderable: true,
        }) ==> spec_resolve(g, t, label) == Some(delegate_fragment(label)),
{
}

} // verus!
