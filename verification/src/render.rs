//! The field renderer and the record renderer.
//!
//! Fields are rendered in declaration order; a field the resolver drops
//! contributes nothing, not even a separator. A bitfield storage unit
//! expands into one fragment per named sub-field, fetched through the
//! generated getters. The record renderer seeds the template with the
//! item's display name, fills the body — `opaque` for opacity-flagged
//! items, `union` for unions, the comma-joined field fragments for structs
//! — and closes the braces.

use vstd::prelude::*;
use crate::fragment::RenderFragment;
use crate::fragment::RenderProcedure;
use crate::fragment::Rendering;
use crate::fragment::ValueExpr;
use crate::fragment::ValueModel;
use crate::fragment::fragment_views;
use crate::fragment::lemma_fragment_views_push;
use crate::fragment::lemma_value_views_concat;
use crate::fragment::value_views;
use crate::graph::Item;
use crate::graph::TypeGraph;
use crate::graph::TypeId;
use crate::resolve::resolve;
use crate::resolve::spec_resolve;
use crate::template::brace_free;

verus! {

/// Struct or union.
#[derive(Clone, Copy, Debug, PartialEq, Eq, Structural)]
pub enum RecordKind {
    Struct,
    Union,
}

/// One named sub-field of a bitfield storage unit, with its width in bits.
/// An unnamed sub-field is padding and is never rendered.
pub struct BitfieldMember {
    pub name: Option<String>,
    pub width: u32,
}

/// One field of a record: either a single named-and-typed member, or a
/// bitfield storage unit grouping physically co-located sub-fields.
pub enum Field {
    DataMember { name: Option<String>, ty: TypeId },
    BitfieldUnit { members: Vec<BitfieldMember> },
}

impl Field {
    /// A field's type reference stays inside the graph's arena.
    pub open spec fn wf(self, g: TypeGraph) -> bool {
        match self {
            Field::DataMember { ty, .. } => (ty as int) < g.spec_len(),
            Field::BitfieldUnit { .. } => true,
        }
    }

    /// Field names arrive from the upstream identifier layer as safely
    /// referenceable identifiers, so they never contain an opening brace.
    pub open spec fn names_brace_free(self) -> bool {
        match self {
            Field::DataMember { name, .. } => match name {
                Option::Some(n) => brace_free(n@),
                Option::None => true,
            },
            Field::BitfieldUnit { members } => forall|i: int|
                0 <= i < members@.len() ==> match (#[trigger] members@[i]).name {
                    Option::Some(n) => brace_free(n@),
                    Option::None => true,
                },
        }
    }
}

/// The fragment for one named bitfield sub-field: `name : {:?}` filled by a
/// call of the sub-field's generated getter. Sub-fields are not passed
/// through the resolver: bitfield element types are always primitive.
pub open spec fn bitfield_fragment(name: Seq<char>) -> Rendering {
    Rendering { template: name + " : {:?}"@, values: seq![ValueModel::AccessorCall(name)] }
}

pub open spec fn bitfield_member_fragments(m: BitfieldMember) -> Seq<Rendering> {
    match m.name {
        Option::Some(n) => seq![bitfield_fragment(n@)],
        Option::None => Seq::<Rendering>::empty(),
    }
}

pub open spec fn bitfield_fragments(ms: Seq<BitfieldMember>) -> Seq<Rendering>
    decreases ms.len(),
{
    if ms.len() == 0 {
        Seq::<Rendering>::empty()
    } else {
        bitfield_fragments(ms.drop_last()) + bitfield_member_fragments(ms.last())
    }
}

/// The fragments one field contributes, in declaration order: none for an
/// unnamed data member or a dropped reference, one per named bitfield
/// sub-field.
pub open spec fn spec_render_field(g: TypeGraph, f: Field) -> Seq<Rendering> {
    match f {
        Field::DataMember { name, ty } => match name {
            Option::Some(n) => match spec_resolve(g, ty as int, n@) {
                Some(fragment) => seq![fragment],
                None => Seq::<Rendering>::empty(),
            },
            Option::None => Seq::<Rendering>::empty(),
        },
        Field::BitfieldUnit { members } => bitfield_fragments(members@),
    }
}

/// All fragments of a field sequence, concatenated in declaration order.
pub open spec fn record_fragments(g: TypeGraph, fields: Seq<Field>) -> Seq<Rendering>
    decreases fields.len(),
{
    if fields.len() == 0 {
        Seq::<Rendering>::empty()
    } else {
        record_fragments(g, fields.drop_last()) + spec_render_field(g, fields.last())
    }
}

/// Fragment templates joined with `", "`.
pub open spec fn joined_template(frags: Seq<Rendering>) -> Seq<char>
    decreases frags.len(),
{
    if frags.len() == 0 {
        Seq::<char>::empty()
    } else if frags.len() == 1 {
        frags[0].template
    } else {
        joined_template(frags.drop_last()) + ", "@ + frags.last().template
    }
}

/// Fragment values concatenated in the same order as their templates.
pub open spec fn joined_values(frags: Seq<Rendering>) -> Seq<ValueModel>
    decreases frags.len(),
{
    if frags.len() == 0 {
        Seq::<ValueModel>::empty()
    } else {
        joined_values(frags.drop_last()) + frags.last().values
    }
}

/// The finished plan for a record: `Name {{ body }}` where the body is
/// `opaque` for an opacity-flagged item, `union` for a union — member
/// rendering is unsound there, since the active member is not statically
/// known — and the joined field fragments for a struct.
pub open spec fn spec_render_record(
    g: TypeGraph,
    item: Item,
    fields: Seq<Field>,
    kind: RecordKind,
) -> Rendering {
    let body: Seq<char> = if item.opaque {
        "opaque"@
    } else if kind == RecordKind::Union {
        "union"@
    } else {
        joined_template(record_fragments(g, fields))
    };
    let values: Seq<ValueModel> = if item.opaque || kind == RecordKind::Union {
        Seq::<ValueModel>::empty()
    } else {
        joined_values(record_fragments(g, fields))
    };
    Rendering { template: item.name@ + " {{ "@ + body + " }}"@, values }
}

proof fn lemma_joined_push(frags: Seq<Rendering>, fr: Rendering)
    ensures
        frags.len() == 0 ==> joined_template(frags.push(fr)) == fr.template,
        frags.len() > 0 ==> joined_template(frags.push(fr)) == joined_template(frags) + ", "@
            + fr.template,
        joined_values(frags.push(fr)) == joined_values(frags) + fr.values,
    decreases frags.len(),
{
    assert(frags.push(fr).drop_last() =~= frags);
    assert(frags.push(fr).last() == fr);
    if frags.len() == 0 {
        assert(frags.push(fr)[0] == fr);
        assert(joined_values(frags.push(fr)) =~= joined_values(frags) + fr.values);
    }
}

proof fn lemma_bitfield_fragments_step(ms: Seq<BitfieldMember>, i: int)
    requires
        0 <= i < ms.len(),
    ensures
        bitfield_fragments(ms.take(i + 1)) == bitfield_fragments(ms.take(i))
            + bitfield_member_fragments(ms[i]),
{
    assert(ms.take(i + 1).drop_last() =~= ms.take(i));
    assert(ms.take(i + 1).last() == ms[i]);
}

proof fn lemma_record_fragments_step(g: TypeGraph, fields: Seq<Field>, i: int)
    requires
        0 <= i < fields.len(),
    ensures
        record_fragments(g, fields.take(i + 1)) == record_fragments(g, fields.take(i))
            + spec_render_field(g, fields[i]),
{
    assert(fields.take(i + 1).drop_last() =~= fields.take(i));
    assert(fields.take(i + 1).last() == fields[i]);
}

fn accessor(name: &str) -> (r: RenderFragment)
    ensures
        r@ == bitfield_fragment(name@),
{
    let mut template = String::from_str(name);
    template.append(" : {:?}");
    let values = vec![ValueExpr::AccessorCall { name: String::from_str(name) }];
    let r = RenderFragment { template, values };
    proof {
        assert(r@ =~= bitfield_fragment(name@));
    }
    r
}

/// Renders one field into zero, one or many fragments: an unnamed data
/// member or a dropped reference contributes nothing; a bitfield unit
/// contributes one fragment per named sub-field, in declaration order.
pub fn render_field(g: &TypeGraph, f: &Field) -> (r: Vec<RenderFragment>)
    requires
        g.wf(),
        f.wf(*g),
    ensures
        fragment_views(r@) == spec_render_field(*g, *f),
{
    let mut out: Vec<RenderFragment> = Vec::new();
    match f {
        Field::DataMember { name, ty } => {
            match name {
                Option::Some(n) => {
                    match resolve(g, *ty, n.as_str()) {
                        Option::Some(fragment) => {
                            proof {
                                lemma_fragment_views_push(out@, fragment);
                            }
                            out.push(fragment);
                            proof {
                                assert(fragment_views(out@) =~= spec_render_field(*g, *f));
                            }
                        },
                        Option::None => {
                            proof {
                                assert(fragment_views(out@) =~= spec_render_field(*g, *f));
                            }
                        },
                    }
                },
                Option::None => {
                    proof {
                        assert(fragment_views(out@) =~= spec_render_field(*g, *f));
                    }
                },
            }
        },
        Field::BitfieldUnit { members } => {
            let mut i: usize = 0;
            while i < members.len()
                invariant
                    i <= members@.len(),
                    fragment_views(out@) == bitfield_fragments(members@.take(i as int)),
                decreases members@.len() - i,
            {
                match &members[i].name {
                    Option::Some(n) => {
                        let fragment = accessor(n.as_str());
                        proof {
                            lemma_fragment_views_push(out@, fragment);
                        }
                        out.push(fragment);
                    },
                    Option::None => {},
                }
                proof {
                    lemma_bitfield_fragments_step(members@, i as int);
                    assert(fragment_views(out@) =~= bitfield_fragments(
                        members@.take((i + 1) as int),
                    ));
                }
                i = i + 1;
            }
            proof {
                assert(members@.take(members@.len() as int) =~= members@);
            }
        },
    }
    out
}

/// Appends one fragment to the procedure under construction, with the
/// `", "` separator in front of every fragment but the first.
fn push_fragment(
    template: &mut String,
    values: &mut Vec<ValueExpr>,
    first: bool,
    fr: RenderFragment,
)
    ensures
        first ==> final(template)@ == old(template)@ + fr@.template,
        !first ==> final(template)@ == old(template)@ + ", "@ + fr@.template,
        value_views(final(values)@) == value_views(old(values)@) + fr@.values,
{
    if !first {
        template.append(", ");
    }
    let ghost previous = values@;
    let RenderFragment { template: snippet, values: mut vs } = fr;
    template.append(snippet.as_str());
    values.append(&mut vs);
    proof {
        lemma_value_views_concat(previous, fr.values@);
    }
}

/// Assembles the rendering procedure for one record or union item: the
/// template `Name {{ body }}` and the ordered extraction expressions that
/// fill its placeholders.
pub fn render_record(g: &TypeGraph, item: &Item, fields: &Vec<Field>, kind: RecordKind) -> (r:
    RenderProcedure)
    requires
        g.wf(),
        forall|i: int| 0 <= i < fields@.len() ==> (#[trigger] fields@[i]).wf(*g),
    ensures
        r@ == spec_render_record(*g, *item, fields@, kind),
{
    let mut template = item.name.clone();
    template.append(" {{ ");
    let mut values: Vec<ValueExpr> = Vec::new();
    if item.opaque {
        template.append("opaque");
    } else {
        match kind {
            RecordKind::Union => {
                template.append("union");
            },
            RecordKind::Struct => {
                let ghost mut done: Seq<Rendering> = Seq::<Rendering>::empty();
                let mut first: bool = true;
                let mut i: usize = 0;
                while i < fields.len()
                    invariant
                        g.wf(),
                        forall|k: int| 0 <= k < fields@.len() ==> (#[trigger] fields@[k]).wf(*g),
                        i <= fields@.len(),
                        done == record_fragments(*g, fields@.take(i as int)),
                        template@ == item.name@ + " {{ "@ + joined_template(done),
                        value_views(values@) == joined_values(done),
                        first <==> done.len() == 0,
                    decreases fields@.len() - i,
                {
                    let mut frags = render_field(g, &fields[i]);
                    let ghost field_frags = fragment_views(frags@);
                    let ghost taken: int = 0;
                    while frags.len() > 0
                        invariant
                            0 <= taken <= field_frags.len(),
                            fragment_views(frags@) == field_frags.skip(taken),
                            done == record_fragments(*g, fields@.take(i as int))
                                + field_frags.take(taken),
                            template@ == item.name@ + " {{ "@ + joined_template(done),
                            value_views(values@) == joined_values(done),
                            first <==> done.len() == 0,
                        decreases frags@.len(),
                    {
                        let ghost before = frags@;
                        let fr = frags.remove(0);
                        let ghost frv = fr@;
                        proof {
                            assert(before.len() > 0);
                            assert(fragment_views(before).len() == before.len());
                            assert(field_frags.skip(taken).len() == field_frags.len() - taken);
                            assert(taken < field_frags.len());
                            assert(fragment_views(before)[0] == before[0]@);
                            assert(field_frags.skip(taken)[0] == field_frags[taken]);
                            assert(field_frags[taken] == frv);
                            assert(frags@ =~= before.skip(1));
                            assert forall|j: int| 0 <= j < frags@.len() implies fragment_views(
                                frags@,
                            )[j] == field_frags.skip(taken + 1)[j] by {
                                assert(fragment_views(frags@)[j] == frags@[j]@);
                                assert(frags@[j] == before[j + 1]);
                                assert(fragment_views(before)[j + 1] == before[j + 1]@);
                                assert(field_frags.skip(taken)[j + 1] == field_frags[taken + 1
                                    + j]);
                                assert(field_frags.skip(taken + 1)[j] == field_frags[taken + 1
                                    + j]);
                            }
                            assert(fragment_views(frags@) =~= field_frags.skip(taken + 1));
                            lemma_joined_push(done, frv);
                        }
                        push_fragment(&mut template, &mut values, first, fr);
                        first = false;
                        proof {
                            done = done.push(frv);
                            taken = taken + 1;
                            assert(field_frags.take(taken) =~= field_frags.take(taken - 1).push(
                                frv,
                            ));
                            assert((record_fragments(*g, fields@.take(i as int))
                                + field_frags.take(taken - 1)).push(frv) =~= record_fragments(
                                *g,
                                fields@.take(i as int),
                            ) + field_frags.take(taken));
                            if done.len() == 1 {
                                // an empty join followed by the first fragment
                                assert(item.name@ + " {{ "@ + joined_template(Seq::<
                                    Rendering,
                                >::empty()) =~= item.name@ + " {{ "@);
                            }
                            assert(template@ =~= item.name@ + " {{ "@ + joined_template(done));
                        }
                    }
                    proof {
                        assert(field_frags.take(taken) =~= field_frags);
                        lemma_record_fragments_step(*g, fields@, i as int);
                        assert(done =~= record_fragments(*g, fields@.take((i + 1) as int)));
                    }
                    i = i + 1;
                }
                proof {
                    assert(fields@.take(fields@.len() as int) =~= fields@);
                }
            },
        }
    }
    template.append(" }}");
    let r = RenderProcedure { template, values };
    proof {
        assert(r@.template =~= spec_render_record(*g, *item, fields@, kind).template);
        assert(r@ =~= spec_render_record(*g, *item, fields@, kind));
    }
    r
}

} // verus!
