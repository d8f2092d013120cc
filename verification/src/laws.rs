use vstd::prelude::*;
use crate::casing::snake_of;
use crate::decimal::{dec_of, lemma_pos_markers_distinct, pos_marker_of};
use crate::generate::{
    accessor_impl, derive_body, derive_text, field_bundle, fields_bundle, impl_header, impl_intro,
    marker_decl, named_bundle, namespace_wrap, pad_text, pos_bundle, record_fn_text,
    result_ty_text, self_ty_text, type_line, variant_fn_text, CallShape,
};
use crate::shape::{FieldDefView, FieldListView, TypeGenericsView, TypeShapeView};

verus! {

/// For every record field of declared type `T`: the generated bundle is the
/// field's marker declaration followed by exactly three capability
/// implementations, one per call-shape, whose result types are `T`,
/// `&'__top_level T` and `&'__top_level mut T`, and whose extractions are
/// direct field access behind the matching borrow.
pub proof fn lemma_record_call_shapes(
    marker: Seq<char>,
    access: Seq<char>,
    name: Seq<char>,
    ty: Seq<char>,
    g: TypeGenericsView,
)
    ensures
        field_bundle(marker, access, name, ty, g, None) == marker_decl(marker) + accessor_impl(
            CallShape::Owned,
            marker,
            name,
            ty,
            g,
            None,
            access,
        ) + accessor_impl(CallShape::Ref, marker, name, ty, g, None, access) + accessor_impl(
            CallShape::RefMut,
            marker,
            name,
            ty,
            g,
            None,
            access,
        ),
        accessor_impl(CallShape::Owned, marker, name, ty, g, None, access) == impl_header(
            CallShape::Owned,
            marker,
            name,
            g,
        ) + type_line(CallShape::Owned, ty, false) + record_fn_text(
            CallShape::Owned,
            marker,
            access,
        ),
        result_ty_text(CallShape::Owned, ty, false) == ty,
        result_ty_text(CallShape::Ref, ty, false) == "&'__top_level "@ + ty,
        result_ty_text(CallShape::RefMut, ty, false) == "&'__top_level mut "@ + ty,
{
}

/// In a named-field record, the field with index `i` contributes, in
/// declaration order, the bundle whose marker is the field's identifier
/// verbatim and whose extraction accesses the field by that identifier.
pub proof fn lemma_named_marker_verbatim(
    name: Seq<char>,
    g: TypeGenericsView,
    fs: Seq<FieldDefView>,
    variant: Option<Seq<char>>,
    i: int,
)
    requires
        0 <= i < fs.len(),
    ensures
        named_bundle(name, g, fs.subrange(0, i + 1), variant) == named_bundle(
            name,
            g,
            fs.subrange(0, i),
            variant,
        ) + field_bundle(fs[i].name, fs[i].name, name, fs[i].ty, g, variant),
{
    assert(fs.subrange(0, i + 1).drop_last() =~= fs.subrange(0, i));
    assert(fs.subrange(0, i + 1).last() == fs[i]);
}

/// Generation is a function of the declared shape alone: two inputs with the
/// same shape generate the same text, so generating twice never produces
/// diverging accessor sets.
pub proof fn lemma_generation_deterministic(a: TypeShapeView, b: TypeShapeView)
    requires
        a == b,
    ensures
        derive_text(a) == derive_text(b),
{
}

/// The whole bundle of one input type lives inside a single namespace derived
/// from the type's name alone, so two types whose names case-fold apart get
/// non-interfering namespaces even when their markers carry the same
/// identifiers.
pub proof fn lemma_namespace_named_after_type(t: TypeShapeView)
    ensures
        derive_text(t) == namespace_wrap(snake_of(t.name), derive_body(t)),
{
}

/// In a positional-field record, the field with index `i` contributes, in
/// declaration order, the bundle whose marker is the underscore-prefixed
/// index `_i` and whose extraction accesses the field by the bare index.
pub proof fn lemma_positional_marker_indexed(
    name: Seq<char>,
    g: TypeGenericsView,
    tys: Seq<Seq<char>>,
    variant: Option<Seq<char>>,
    i: int,
)
    requires
        0 <= i < tys.len(),
    ensures
        pos_bundle(name, g, tys.subrange(0, i + 1), variant) == pos_bundle(
            name,
            g,
            tys.subrange(0, i),
            variant,
        ) + field_bundle(pos_marker_of(i as nat), dec_of(i as nat), name, tys[i], g, variant),
{
    assert(tys.subrange(0, i + 1).drop_last() =~= tys.subrange(0, i));
    assert(tys.subrange(0, i + 1).last() == tys[i]);
}

/// Positional markers never collide: distinct indices always get distinct
/// marker identifiers.
pub proof fn lemma_positional_markers_unique(i: nat, j: nat)
    ensures
        i != j ==> pos_marker_of(i) != pos_marker_of(j),
{
    lemma_pos_markers_distinct(i, j);
}

/// For a tagged-union variant field: every call-shape's result type is the
/// record result type wrapped in an optional, and the extraction is the
/// conditional match on the owning variant — present when the value's active
/// variant matches the marker's, absent otherwise — uniformly for the three
/// call-shapes.
pub proof fn lemma_variant_call_shapes(
    marker: Seq<char>,
    name: Seq<char>,
    ty: Seq<char>,
    g: TypeGenericsView,
    v: Seq<char>,
    access: Seq<char>,
)
    ensures
        accessor_impl(CallShape::Owned, marker, name, ty, g, Some(v), access) == impl_header(
            CallShape::Owned,
            marker,
            name,
            g,
        ) + type_line(CallShape::Owned, ty, true) + variant_fn_text(
            CallShape::Owned,
            marker,
            name,
            v,
            access,
        ),
        accessor_impl(CallShape::Ref, marker, name, ty, g, Some(v), access) == impl_header(
            CallShape::Ref,
            marker,
            name,
            g,
        ) + type_line(CallShape::Ref, ty, true) + variant_fn_text(
            CallShape::Ref,
            marker,
            name,
            v,
            access,
        ),
        accessor_impl(CallShape::RefMut, marker, name, ty, g, Some(v), access) == impl_header(
            CallShape::RefMut,
            marker,
            name,
            g,
        ) + type_line(CallShape::RefMut, ty, true) + variant_fn_text(
            CallShape::RefMut,
            marker,
            name,
            v,
            access,
        ),
        result_ty_text(CallShape::Owned, ty, true) == "Option<"@ + ty + ">"@,
        result_ty_text(CallShape::Ref, ty, true) == "Option<&'__top_level "@ + ty + ">"@,
        result_ty_text(CallShape::RefMut, ty, true) == "Option<&'__top_level mut "@ + ty + ">"@,
{
    reveal_strlit("Option<");
    reveal_strlit("&'__top_level ");
    reveal_strlit("&'__top_level mut ");
    reveal_strlit("Option<&'__top_level ");
    reveal_strlit("Option<&'__top_level mut ");
    assert(result_ty_text(CallShape::Ref, ty, true) =~= "Option<&'__top_level "@ + ty + ">"@);
    assert(result_ty_text(CallShape::RefMut, ty, true) =~= "Option<&'__top_level mut "@ + ty
        + ">"@);
}

/// Every emitted implementation carries the owning type's generic parameters
/// forward: the owned call-shape's header splices the impl-generics, the
/// reference call-shapes introduce the fresh borrow lifetime ahead of the
/// bare parameter list (so returned borrows are tied to the source), the
/// self type applies the ty-generics, and a nonempty where clause is
/// appended to every header.
pub proof fn lemma_generics_propagation(
    shape: CallShape,
    marker: Seq<char>,
    name: Seq<char>,
    g: TypeGenericsView,
)
    ensures
        impl_header(shape, marker, name, g) == impl_intro(shape, g) + " abstract_getters::Field<"@
            + marker + "> for "@ + self_ty_text(shape, name, g.ty_generics) + pad_text(
            g.where_clause,
        ) + " {\n"@,
        g.impl_generics.len() > 0 ==> impl_intro(CallShape::Owned, g) == "impl"@ + " "@
            + g.impl_generics,
        g.params.len() > 0 ==> impl_intro(CallShape::Ref, g) == "impl<'__top_level"@ + ", "@
            + g.params + ">"@,
        g.params.len() > 0 ==> impl_intro(CallShape::RefMut, g) == impl_intro(CallShape::Ref, g),
        self_ty_text(CallShape::Owned, name, g.ty_generics) == name + g.ty_generics,
        self_ty_text(CallShape::Ref, name, g.ty_generics) == "&'__top_level "@ + name
            + g.ty_generics,
        self_ty_text(CallShape::RefMut, name, g.ty_generics) == "&'__top_level mut "@ + name
            + g.ty_generics,
        g.where_clause.len() > 0 ==> pad_text(g.where_clause) == " "@ + g.where_clause,
{
}

/// A fieldless record or variant generates an empty bundle — no markers and
/// no implementations — and that is not an error.
pub proof fn lemma_fieldless_empty(
    name: Seq<char>,
    g: TypeGenericsView,
    variant: Option<Seq<char>>,
)
    ensures
        fields_bundle(name, g, FieldListView::Unit, variant) == Seq::<char>::empty(),
        fields_bundle(name, g, FieldListView::Named(Seq::empty()), variant)
            == Seq::<char>::empty(),
        fields_bundle(name, g, FieldListView::Unnamed(Seq::empty()), variant)
            == Seq::<char>::empty(),
{
}

} // verus!
