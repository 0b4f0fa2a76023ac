//! The renderability resolver.
//!
//! For a single type reference plus a display label it decides whether a
//! runtime rendering fragment can be produced and, if so, which one. `None`
//! means the field is omitted entirely — label and value both — never shown
//! as unknown. The decision is a pure, total function of the type graph,
//! covering every kind variant.

use vstd::prelude::*;
use crate::decimal::decimal_str;
use crate::decimal::push_decimal;
use crate::fragment::RenderFragment;
use crate::fragment::Rendering;
use crate::fragment::ValueExpr;
use crate::fragment::ValueModel;
use crate::graph::TypeGraph;
use crate::graph::TypeId;
use crate::graph::TypeKind;

verus! {

/// The longest array the host's automatic rendering machinery still covers
/// by itself; equivalently, lengths below 32 delegate to the host. Longer
/// arrays get a synthesized element-joining expression instead.
pub const SMALL_ARRAY_MAX: usize = 31;

/// The fragment that delegates to the referenced value's own rendering:
/// `label: {:?}` filled from a plain member access.
pub open spec fn delegate_fragment(label: Seq<char>) -> Rendering {
    Rendering { template: label + ": {:?}"@, values: seq![ValueModel::FieldAccess(label)] }
}

/// A literal marker fragment: fixed template text, no runtime value.
pub open spec fn marker_fragment(label: Seq<char>, marker: Seq<char>) -> Rendering {
    Rendering { template: label + marker, values: Seq::<ValueModel>::empty() }
}

/// The fragment for an oversized array: `label: [{}]`, whose one value is a
/// string synthesized at runtime by walking the array and joining the
/// elements' renderings with `", "`.
pub open spec fn array_join_fragment(label: Seq<char>) -> Rendering {
    Rendering { template: label + ": [{}]"@, values: seq![ValueModel::ArrayJoin(label)] }
}

/// What the resolver answers for the item at `t` under display label
/// `label`, by kind, in priority order: a reference to an item outside the
/// generated output surface, to an opacity-flagged item or to an
/// opaque-kind node is dropped; scalar-like kinds delegate; template
/// instantiations opaque to the host, generic parameters, generic-involving
/// arrays and non-trivial function pointers become literal markers; small
/// arrays delegate, large ones get a joining expression; aliases are
/// transparent; a pointer is judged by the alias-stripped form of its
/// pointee but only ever renders its own value.
pub open spec fn spec_resolve(g: TypeGraph, t: int, label: Seq<char>) -> Option<Rendering>
    decreases t,
{
    if !g.in_bounds(t) {
        None
    } else if !g.items@[t].whitelisted {
        None
    } else if g.items@[t].opaque {
        None
    } else {
        match g.items@[t].kind {
            TypeKind::Scalar => Some(delegate_fragment(label)),
            TypeKind::Record => Some(delegate_fragment(label)),
            TypeKind::FunctionSignature { .. } => Some(delegate_fragment(label)),
            TypeKind::TemplateInstantiation { opaque_to_host } => if opaque_to_host {
                Some(marker_fragment(label, ": opaque"@))
            } else {
                Some(delegate_fragment(label))
            },
            TypeKind::GenericParameter => Some(
                marker_fragment(label, ": Non-debuggable generic"@),
            ),
            TypeKind::Array { element, length } => if g.involves_generic(element as int) {
                Some(
                    marker_fragment(
                        label,
                        ": Array with length "@ + decimal_str(length as nat),
                    ),
                )
            } else if length <= SMALL_ARRAY_MAX {
                Some(delegate_fragment(label))
            } else {
                Some(array_join_fragment(label))
            },
            TypeKind::AliasLike { target } => if (target as int) < t {
                spec_resolve(g, target as int, label)
            } else {
                None
            },
            TypeKind::Pointer { inner } => match g.canonical_kind(inner as int) {
                TypeKind::FunctionSignature { trivially_renderable } => if trivially_renderable {
                    Some(delegate_fragment(label))
                } else {
                    Some(marker_fragment(label, ": FunctionPointer"@))
                },
                _ => Some(delegate_fragment(label)),
            },
            TypeKind::Opaque => None,
        }
    }
}

fn delegate(label: &str) -> (r: RenderFragment)
    ensures
        r@ == delegate_fragment(label@),
{
    let mut template = String::from_str(label);
    template.append(": {:?}");
    let values = vec![ValueExpr::FieldAccess { name: String::from_str(label) }];
    let r = RenderFragment { template, values };
    proof {
        assert(r@ =~= delegate_fragment(label@));
    }
    r
}

fn marker(label: &str, marker_text: &str) -> (r: RenderFragment)
    ensures
        r@ == marker_fragment(label@, marker_text@),
{
    let mut template = String::from_str(label);
    template.append(marker_text);
    let r = RenderFragment { template, values: Vec::new() };
    proof {
        assert(r@ =~= marker_fragment(label@, marker_text@));
    }
    r
}

fn length_marker(label: &str, length: usize) -> (r: RenderFragment)
    ensures
        r@ == marker_fragment(label@, ": Array with length "@ + decimal_str(length as nat)),
{
    let mut template = String::from_str(label);
    template.append(": Array with length ");
    push_decimal(&mut template, length as u64);
    let r = RenderFragment { template, values: Vec::new() };
    proof {
        assert(r@.template =~= label@ + (": Array with length "@ + decimal_str(length as nat)));
        assert(r@ =~= marker_fragment(label@, ": Array with length "@ + decimal_str(length as nat)));
    }
    r
}

fn array_join(label: &str) -> (r: RenderFragment)
    ensures
        r@ == array_join_fragment(label@),
{
    let mut template = String::from_str(label);
    template.append(": [{}]");
    let values = vec![ValueExpr::ArrayJoin { name: String::from_str(label) }];
    let r = RenderFragment { template, values };
    proof {
        assert(r@ =~= array_join_fragment(label@));
    }
    r
}

/// Decides whether the item at `t`, shown under `label`, yields a rendering
/// fragment, and produces it.
pub fn resolve(g: &TypeGraph, t: TypeId, label: &str) -> (r: Option<RenderFragment>)
    requires
        g.wf(),
        t < g.items@.len(),
    ensures
        match r {
            Some(fragment) => spec_resolve(*g, t as int, label@) == Some(fragment@),
            None => spec_resolve(*g, t as int, label@) is None,
        },
    decreases t,
{
    let item = &g.items[t];
    if !item.whitelisted {
        None
    } else if item.opaque {
        None
    } else {
        proof {
            assert(g.items@[t as int].kind.references_below(t as int));
        }
        match item.kind {
            TypeKind::Scalar => Some(delegate(label)),
            TypeKind::Record => Some(delegate(label)),
            TypeKind::FunctionSignature { .. } => Some(delegate(label)),
            TypeKind::TemplateInstantiation { opaque_to_host } => if opaque_to_host {
                Some(marker(label, ": opaque"))
            } else {
                Some(delegate(label))
            },
            TypeKind::GenericParameter => Some(marker(label, ": Non-debuggable generic")),
            TypeKind::Array { element, length } => if g.check_involves_generic(element) {
                Some(length_marker(label, length))
            } else if length <= SMALL_ARRAY_MAX {
                Some(delegate(label))
            } else {
                Some(array_join(label))
            },
            TypeKind::AliasLike { target } => resolve(g, target, label),
            TypeKind::Pointer { inner } => match g.canonical_kind_of(inner) {
                TypeKind::FunctionSignature { trivially_renderable } => if trivially_renderable {
                    Some(delegate(label))
                } else {
                    Some(marker(label, ": FunctionPointer"))
                },
                _ => Some(delegate(label)),
            },
            TypeKind::Opaque => None,
        }
    }
}

} // verus!
