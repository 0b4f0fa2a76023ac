//! Rendering fragments and procedures: a template paired with the ordered
//! value-extraction expressions that fill its placeholders.

use vstd::prelude::*;
use crate::template::brace_free;
use crate::template::placeholder_count;

verus! {

/// A value-extraction expression, handed to the emission layer. The carried
/// name is the field's raw name; turning it into a referenceable identifier
/// token is the emission layer's business.
#[derive(Debug, PartialEq, Eq)]
pub enum ValueExpr {
    /// Plain member access: the field's own value, rendered by delegation.
    FieldAccess { name: String },
    /// A call of the generated getter for a bitfield sub-field, which cannot
    /// be reached by plain member access because it is packed.
    AccessorCall { name: String },
    /// An expression that walks an array field in order, renders each
    /// element and joins the pieces with `", "`, yielding a single string.
    ArrayJoin { name: String },
}

/// The mathematical shape of a value-extraction expression.
pub enum ValueModel {
    FieldAccess(Seq<char>),
    AccessorCall(Seq<char>),
    ArrayJoin(Seq<char>),
}

impl View for ValueExpr {
    type V = ValueModel;

    open spec fn view(&self) -> ValueModel {
        match self {
            ValueExpr::FieldAccess { name } => ValueModel::FieldAccess(name@),
            ValueExpr::AccessorCall { name } => ValueModel::AccessorCall(name@),
            ValueExpr::ArrayJoin { name } => ValueModel::ArrayJoin(name@),
        }
    }
}

pub open spec fn value_views(vs: Seq<ValueExpr>) -> Seq<ValueModel> {
    vs.map_values(|v: ValueExpr| v@)
}

/// The mathematical shape of a fragment or of a finished procedure: a
/// template together with the values that fill it.
#[verifier::ext_equal]
pub struct Rendering {
    pub template: Seq<char>,
    pub values: Seq<ValueModel>,
}

/// One field's contribution to the rendering: a template snippet plus the
/// extraction expressions for its placeholders.
#[derive(Debug, PartialEq, Eq)]
pub struct RenderFragment {
    pub template: String,
    pub values: Vec<ValueExpr>,
}

impl View for RenderFragment {
    type V = Rendering;

    open spec fn view(&self) -> Rendering {
        Rendering { template: self.template@, values: value_views(self.values@) }
    }
}

/// The finished plan for one record: the full template, to be consumed
/// first by the output-writing step, followed by all collected extraction
/// expressions in order.
#[derive(Debug, PartialEq, Eq)]
pub struct RenderProcedure {
    pub template: String,
    pub values: Vec<ValueExpr>,
}

impl View for RenderProcedure {
    type V = Rendering;

    open spec fn view(&self) -> Rendering {
        Rendering { template: self.template@, values: value_views(self.values@) }
    }
}

pub open spec fn fragment_views(fs: Seq<RenderFragment>) -> Seq<Rendering> {
    fs.map_values(|f: RenderFragment| f@)
}

/// A healthy fragment: its placeholders match its values one for one, and
/// its template is nonempty and does not open with a brace, so fragments can
/// be joined without disturbing each other's placeholder scan.
pub open spec fn frag_ok(r: Rendering) -> bool {
    &&& placeholder_count(r.template) == r.values.len()
    &&& r.template.len() > 0
    &&& r.template[0] != '{'
}

pub open spec fn all_frags_ok(rs: Seq<Rendering>) -> bool {
    forall|i: int| 0 <= i < rs.len() ==> frag_ok(#[trigger] rs[i])
}

pub proof fn lemma_value_views_concat(a: Seq<ValueExpr>, b: Seq<ValueExpr>)
    ensures
        value_views(a + b) == value_views(a) + value_views(b),
{
    assert(value_views(a + b) =~= value_views(a) + value_views(b));
}

pub proof fn lemma_fragment_views_push(fs: Seq<RenderFragment>, f: RenderFragment)
    ensures
        fragment_views(fs.push(f)) == fragment_views(fs).push(f@),
{
    assert(fragment_views(fs.push(f)) =~= fragment_views(fs).push(f@));
}

pub proof fn lemma_all_frags_ok_concat(a: Seq<Rendering>, b: Seq<Rendering>)
    requires
        all_frags_ok(a),
        all_frags_ok(b),
    ensures
        all_frags_ok(a + b),
{
    assert forall|i: int| 0 <= i < (a + b).len() implies frag_ok(#[trigger] (a + b)[i]) by {
        if i < a.len() {
            assert((a + b)[i] == a[i]);
        } else {
            assert((a + b)[i] == b[i - a.len()]);
        }
    }
}

} // verus!
