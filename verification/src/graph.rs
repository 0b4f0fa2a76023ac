//! The type graph: an immutable arena of type items.
//!
//! Every composite kind refers to its constituents by index into the arena.
//! Well-formedness asks that each reference point strictly earlier in the
//! arena — the order in which a bottom-up construction naturally produces
//! it — which bounds every recursive descent and is asserted once at
//! construction time rather than re-checked during resolution.

use vstd::prelude::*;

verus! {

/// Index of an item in the type graph's arena.
pub type TypeId = usize;

/// The kind tag of a type node, with references to constituent types where
/// the kind is composite.
#[derive(Clone, Copy, Debug, PartialEq, Eq, Structural)]
pub enum TypeKind {
    /// Plain value kinds — integers, floats, complex numbers, enums,
    /// references, unresolved references, foreign-object kinds, the void and
    /// null-pointer kinds. All of them delegate to the value's own runtime
    /// rendering, so a single tag covers them.
    Scalar,
    /// A nested struct or union, rendered by reference through its own
    /// rendering capability.
    Record,
    /// A template instantiation; `opaque_to_host` records whether, relative
    /// to the item under generation, some type argument makes rendering
    /// unsafe. That judgement is computed upstream and consumed here as a
    /// fact.
    TemplateInstantiation { opaque_to_host: bool },
    /// An unconstrained generic parameter: nothing guarantees it can be
    /// rendered at runtime.
    GenericParameter,
    /// A fixed-length array of `element`.
    Array { element: TypeId, length: usize },
    /// A node transparently equivalent to `target`: a resolved reference, a
    /// template alias or a plain alias.
    AliasLike { target: TypeId },
    /// A pointer to `inner`; only the pointer value itself is ever rendered.
    Pointer { inner: TypeId },
    /// A function signature; `trivially_renderable` records whether its
    /// argument and return types lie inside the set the host's automatic
    /// rendering machinery supports, a fact computed upstream.
    FunctionSignature { trivially_renderable: bool },
    /// A type whose layout is intentionally hidden.
    Opaque,
}

impl TypeKind {
    /// All constituent references of this node point strictly below `bound`.
    pub open spec fn references_below(self, bound: int) -> bool {
        match self {
            TypeKind::Array { element, .. } => (element as int) < bound,
            TypeKind::AliasLike { target } => (target as int) < bound,
            TypeKind::Pointer { inner } => (inner as int) < bound,
            _ => true,
        }
    }
}

/// A type node together with its identity-level facts: the display name, the
/// whitelist-membership flag (is the item part of the generated output
/// surface?) and the opacity flag (are its internals hidden?). All three are
/// resolved upstream and read here as given.
pub struct Item {
    pub name: String,
    pub whitelisted: bool,
    pub opaque: bool,
    pub kind: TypeKind,
}

/// The arena of items, read-only for the lifetime of a generation run.
pub struct TypeGraph {
    pub items: Vec<Item>,
}

impl TypeGraph {
    pub open spec fn spec_len(self) -> int {
        self.items@.len() as int
    }

    pub open spec fn in_bounds(self, t: int) -> bool {
        0 <= t < self.spec_len()
    }

    /// Each item's references point strictly earlier in the arena, so any
    /// chain of alias, array or pointer references terminates.
    pub open spec fn wf(self) -> bool {
        forall|i: int|
            0 <= i < self.spec_len() ==> (#[trigger] self.items@[i]).kind.references_below(i)
    }

    /// The fully alias-stripped form of the node at `t`: the kind reached by
    /// following `AliasLike` targets until a non-alias node.
    pub open spec fn canonical_kind(self, t: int) -> TypeKind
        decreases t,
    {
        if !self.in_bounds(t) {
            TypeKind::Opaque
        } else {
            match self.items@[t].kind {
                TypeKind::AliasLike { target } => if (target as int) < t {
                    self.canonical_kind(target as int)
                } else {
                    self.items@[t].kind
                },
                _ => self.items@[t].kind,
            }
        }
    }

    /// Whether resolving the node at `t` transitively involves a generic
    /// parameter, following alias targets and array elements. Such a node's
    /// rendering capability cannot be guaranteed.
    pub open spec fn involves_generic(self, t: int) -> bool
        decreases t,
    {
        if !self.in_bounds(t) {
            false
        } else {
            match self.items@[t].kind {
                TypeKind::GenericParameter => true,
                TypeKind::AliasLike { target } => (target as int) < t && self.involves_generic(
                    target as int,
                ),
                TypeKind::Array { element, .. } => (element as int) < t && self.involves_generic(
                    element as int,
                ),
                _ => false,
            }
        }
    }

    /// Follows alias targets until a non-alias node and returns its kind.
    pub fn canonical_kind_of(&self, t: TypeId) -> (k: TypeKind)
        requires
            self.wf(),
            t < self.items@.len(),
        ensures
            k == self.canonical_kind(t as int),
        decreases t,
    {
        match self.items[t].kind {
            TypeKind::AliasLike { target } => {
                proof {
                    assert(self.items@[t as int].kind.references_below(t as int));
                }
                self.canonical_kind_of(target)
            },
            other => other,
        }
    }

    /// Decides whether the node at `t` transitively involves a generic
    /// parameter through alias and array references.
    pub fn check_involves_generic(&self, t: TypeId) -> (r: bool)
        requires
            self.wf(),
            t < self.items@.len(),
        ensures
            r == self.involves_generic(t as int),
        decreases t,
    {
        match self.items[t].kind {
            TypeKind::GenericParameter => true,
            TypeKind::AliasLike { target } => {
                proof {
                    assert(self.items@[t as int].kind.references_below(t as int));
                }
                self.check_involves_generic(target)
            },
            TypeKind::Array { element, .. } => {
                proof {
                    assert(self.items@[t as int].kind.references_below(t as int));
                }
                self.check_involves_generic(element)
            },
            _ => false,
        }
    }
}

} // verus!
