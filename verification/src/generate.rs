use vstd::prelude::*;
use vstd::string::StringExecFns;
use crate::casing::{snake_of, to_snake_case};
use crate::decimal::{dec_of, dec_string, pos_marker, pos_marker_of};
use crate::shape::{
    FieldDef, FieldDefView, FieldList, FieldListView, GenError, ShapeData, ShapeDataView,
    TypeGenerics, TypeGenericsView, TypeShape, TypeShapeView, VariantDef, VariantDefView,
};

verus! {

/// One of the three access modes a value of the owning type can be accessed
/// through: by value, by immutable reference, or by mutable reference.
#[derive(Clone, Copy)]
pub enum CallShape {
    Owned,
    Ref,
    RefMut,
}

/// The view of an optional borrowed identifier.
pub open spec fn opt_view(o: Option<&str>) -> Option<Seq<char>> {
    match o {
        Some(s) => Some(s@),
        None => None,
    }
}

/// `s` preceded by one space, or empty when `s` is empty.
pub open spec fn pad_text(s: Seq<char>) -> Seq<char> {
    if s.len() == 0 {
        s
    } else {
        " "@ + s
    }
}

/// `s` preceded by a comma and a space, or empty when `s` is empty.
pub open spec fn comma_text(s: Seq<char>) -> Seq<char> {
    if s.len() == 0 {
        s
    } else {
        ", "@ + s
    }
}

/// The declaration of one field marker: a zero-sized type deriving
/// debug-printability, copying, equality and hashing.
pub open spec fn marker_decl(marker: Seq<char>) -> Seq<char> {
    "#[derive(Debug, Clone, Copy, PartialEq, Eq, Hash)]\n#[allow(non_camel_case_types)]\npub struct "@
        + marker + ";\n"@
}

/// The generic-parameter introduction of one implementation. The owned
/// call-shape reuses the owning type's impl-generics; the reference
/// call-shapes introduce the fresh borrow lifetime `'__top_level` ahead of
/// the owning type's parameter list.
pub open spec fn impl_intro(shape: CallShape, g: TypeGenericsView) -> Seq<char> {
    match shape {
        CallShape::Owned => "impl"@ + pad_text(g.impl_generics),
        CallShape::Ref => "impl<'__top_level"@ + comma_text(g.params) + ">"@,
        CallShape::RefMut => "impl<'__top_level"@ + comma_text(g.params) + ">"@,
    }
}

/// The self type of one implementation: the owning type applied to its own
/// ty-generics, behind the call-shape's borrow.
pub open spec fn self_ty_text(shape: CallShape, name: Seq<char>, ty_generics: Seq<char>) -> Seq<
    char,
> {
    match shape {
        CallShape::Owned => name + ty_generics,
        CallShape::Ref => "&'__top_level "@ + name + ty_generics,
        CallShape::RefMut => "&'__top_level mut "@ + name + ty_generics,
    }
}

/// The field's declared type behind the call-shape's borrow.
pub open spec fn base_ty_text(shape: CallShape, ty: Seq<char>) -> Seq<char> {
    match shape {
        CallShape::Owned => ty,
        CallShape::Ref => "&'__top_level "@ + ty,
        CallShape::RefMut => "&'__top_level mut "@ + ty,
    }
}

/// The result type of one implementation: the field's type behind the
/// call-shape's borrow, wrapped in an optional for tagged-union variants.
pub open spec fn result_ty_text(shape: CallShape, ty: Seq<char>, in_variant: bool) -> Seq<char> {
    if in_variant {
        "Option<"@ + base_ty_text(shape, ty) + ">"@
    } else {
        base_ty_text(shape, ty)
    }
}

/// The header line of one implementation.
pub open spec fn impl_header(
    shape: CallShape,
    marker: Seq<char>,
    name: Seq<char>,
    g: TypeGenericsView,
) -> Seq<char> {
    impl_intro(shape, g) + " abstract_getters::Field<"@ + marker + "> for "@ + self_ty_text(
        shape,
        name,
        g.ty_generics,
    ) + pad_text(g.where_clause) + " {\n"@
}

/// The associated-type line of one implementation.
pub open spec fn type_line(shape: CallShape, ty: Seq<char>, in_variant: bool) -> Seq<char> {
    "    type Type = "@ + result_ty_text(shape, ty, in_variant) + ";\n"@
}

/// The extraction expression of a record field: direct field access behind
/// the call-shape's borrow.
pub open spec fn extract_expr(shape: CallShape, access: Seq<char>) -> Seq<char> {
    match shape {
        CallShape::Owned => "self."@ + access,
        CallShape::Ref => "&self."@ + access,
        CallShape::RefMut => "&mut self."@ + access,
    }
}

/// The extraction of a record field, and the implementation's closing brace.
pub open spec fn record_fn_text(shape: CallShape, marker: Seq<char>, access: Seq<char>) -> Seq<
    char,
> {
    "    fn field(self) -> <Self as abstract_getters::Field<"@ + marker + ">>::Type { "@
        + extract_expr(shape, access) + " }\n}\n"@
}

/// How the conditional extraction of a variant field names the owning type:
/// the owned call-shape can say `Self`, the reference call-shapes match
/// through the borrow and name the type itself.
pub open spec fn match_ctor(shape: CallShape, name: Seq<char>) -> Seq<char> {
    match shape {
        CallShape::Owned => "Self"@,
        CallShape::Ref => name,
        CallShape::RefMut => name,
    }
}

/// The conditional extraction of a tagged-union variant field: present when
/// the value's active variant is the marker's owning variant, absent
/// otherwise. Closes the implementation.
pub open spec fn variant_fn_text(
    shape: CallShape,
    marker: Seq<char>,
    name: Seq<char>,
    variant: Seq<char>,
    access: Seq<char>,
) -> Seq<char> {
    "    fn field(self) -> <Self as abstract_getters::Field<"@ + marker
        + ">>::Type {\n        match self {\n            "@ + match_ctor(shape, name) + "::"@
        + variant + " { "@ + access
        + ": __get_field, .. } => Some(__get_field),\n            _ => None,\n        }\n    }\n}\n"@
}

/// One complete capability implementation for one field and one call-shape.
pub open spec fn accessor_impl(
    shape: CallShape,
    marker: Seq<char>,
    name: Seq<char>,
    ty: Seq<char>,
    g: TypeGenericsView,
    variant: Option<Seq<char>>,
    access: Seq<char>,
) -> Seq<char> {
    impl_header(shape, marker, name, g) + type_line(shape, ty, variant is Some) + match variant {
        None => record_fn_text(shape, marker, access),
        Some(v) => variant_fn_text(shape, marker, name, v, access),
    }
}

/// Everything generated for one field: its marker declaration and its three
/// capability implementations, one per call-shape.
pub open spec fn field_bundle(
    marker: Seq<char>,
    access: Seq<char>,
    name: Seq<char>,
    ty: Seq<char>,
    g: TypeGenericsView,
    variant: Option<Seq<char>>,
) -> Seq<char> {
    marker_decl(marker) + accessor_impl(CallShape::Owned, marker, name, ty, g, variant, access)
        + accessor_impl(CallShape::Ref, marker, name, ty, g, variant, access) + accessor_impl(
        CallShape::RefMut,
        marker,
        name,
        ty,
        g,
        variant,
        access,
    )
}

/// The bundles of a named-field record, in declaration order; each marker is
/// the field's identifier verbatim.
pub open spec fn named_bundle(
    name: Seq<char>,
    g: TypeGenericsView,
    fs: Seq<FieldDefView>,
    variant: Option<Seq<char>>,
) -> Seq<char>
    decreases fs.len(),
{
    if fs.len() == 0 {
        Seq::empty()
    } else {
        named_bundle(name, g, fs.drop_last(), variant) + field_bundle(
            fs.last().name,
            fs.last().name,
            name,
            fs.last().ty,
            g,
            variant,
        )
    }
}

/// The bundles of a positional-field record, in declaration order; the
/// marker of the field with index `i` is `_i`, and the extraction accesses
/// the field by its index.
pub open spec fn pos_bundle(
    name: Seq<char>,
    g: TypeGenericsView,
    tys: Seq<Seq<char>>,
    variant: Option<Seq<char>>,
) -> Seq<char>
    decreases tys.len(),
{
    if tys.len() == 0 {
        Seq::empty()
    } else {
        pos_bundle(name, g, tys.drop_last(), variant) + field_bundle(
            pos_marker_of((tys.len() - 1) as nat),
            dec_of((tys.len() - 1) as nat),
            name,
            tys.last(),
            g,
            variant,
        )
    }
}

/// Everything generated for one record shape (a struct, or one variant of a
/// tagged union). A fieldless shape generates nothing, and that is not an
/// error.
pub open spec fn fields_bundle(
    name: Seq<char>,
    g: TypeGenericsView,
    fields: FieldListView,
    variant: Option<Seq<char>>,
) -> Seq<char> {
    match fields {
        FieldListView::Named(fs) => named_bundle(name, g, fs, variant),
        FieldListView::Unnamed(tys) => pos_bundle(name, g, tys, variant),
        FieldListView::Unit => Seq::empty(),
    }
}

/// A generated namespace: a module that re-imports its surroundings, so the
/// implementations inside can name the owning type without qualification.
pub open spec fn namespace_wrap(ident: Seq<char>, body: Seq<char>) -> Seq<char> {
    "pub mod "@ + ident + " {\n    use super::*;\n"@ + body + "}\n"@
}

/// The nested namespace of one tagged-union variant, named after the variant.
pub open spec fn variant_module(name: Seq<char>, g: TypeGenericsView, v: VariantDefView) -> Seq<
    char,
> {
    namespace_wrap(snake_of(v.name), fields_bundle(name, g, v.fields, Some(v.name)))
}

/// The nested namespaces of all variants of a tagged union, in declaration
/// order.
pub open spec fn variants_bundle(
    name: Seq<char>,
    g: TypeGenericsView,
    vs: Seq<VariantDefView>,
) -> Seq<char>
    decreases vs.len(),
{
    if vs.len() == 0 {
        Seq::empty()
    } else {
        variants_bundle(name, g, vs.drop_last()) + variant_module(name, g, vs.last())
    }
}

/// The body of the top-level namespace: the record's own bundles, or one
/// nested namespace per variant.
pub open spec fn derive_body(t: TypeShapeView) -> Seq<char> {
    match t.data {
        ShapeDataView::Struct(fl) => fields_bundle(t.name, t.generics, fl, None),
        ShapeDataView::Enum(vs) => variants_bundle(t.name, t.generics, vs),
        ShapeDataView::Union => Seq::empty(),
    }
}

/// Everything generated for one supported input type: the full bundle inside
/// one namespace named after the type, case-folded.
pub open spec fn derive_text(t: TypeShapeView) -> Seq<char> {
    namespace_wrap(snake_of(t.name), derive_body(t))
}

/// Appends `s` preceded by one space, or nothing when `s` is empty.
fn append_pad(out: &mut String, s: &str)
    ensures
        final(out)@ == old(out)@ + pad_text(s@),
{
    if !s.is_empty() {
        out.append(" ");
        out.append(s);
        proof {
            assert(out@ =~= old(out)@ + pad_text(s@));
        }
    } else {
        proof {
            assert(out@ =~= old(out)@ + pad_text(s@));
        }
    }
}

/// Appends `s` preceded by a comma and a space, or nothing when `s` is empty.
fn append_comma(out: &mut String, s: &str)
    ensures
        final(out)@ == old(out)@ + comma_text(s@),
{
    if !s.is_empty() {
        out.append(", ");
        out.append(s);
        proof {
            assert(out@ =~= old(out)@ + comma_text(s@));
        }
    } else {
        proof {
            assert(out@ =~= old(out)@ + comma_text(s@));
        }
    }
}

/// Appends the header line of one implementation.
fn push_header(out: &mut String, shape: CallShape, marker: &str, name: &str, g: &TypeGenerics)
    ensures
        final(out)@ == old(out)@ + impl_header(shape, marker@, name@, g@),
{
    match shape {
        CallShape::Owned => {
            out.append("impl");
            append_pad(out, g.impl_generics.as_str());
        },
        CallShape::Ref | CallShape::RefMut => {
            out.append("impl<'__top_level");
            append_comma(out, g.params.as_str());
            out.append(">");
        },
    }
    out.append(" abstract_getters::Field<");
    out.append(marker);
    out.append("> for ");
    match shape {
        CallShape::Owned => {},
        CallShape::Ref => {
            out.append("&'__top_level ");
        },
        CallShape::RefMut => {
            out.append("&'__top_level mut ");
        },
    }
    out.append(name);
    out.append(g.ty_generics.as_str());
    append_pad(out, g.where_clause.as_str());
    out.append(" {\n");
    proof {
        assert(out@ =~= old(out)@ + impl_header(shape, marker@, name@, g@));
    }
}

/// Appends the associated-type line of one implementation.
fn push_type_line(out: &mut String, shape: CallShape, ty: &str, in_variant: bool)
    ensures
        final(out)@ == old(out)@ + type_line(shape, ty@, in_variant),
{
    out.append("    type Type = ");
    if in_variant {
        out.append("Option<");
    }
    match shape {
        CallShape::Owned => {},
        CallShape::Ref => {
            out.append("&'__top_level ");
        },
        CallShape::RefMut => {
            out.append("&'__top_level mut ");
        },
    }
    out.append(ty);
    if in_variant {
        out.append(">");
    }
    out.append(";\n");
    proof {
        assert(out@ =~= old(out)@ + type_line(shape, ty@, in_variant));
    }
}

/// Appends the extraction of a record field and the closing brace.
fn push_record_fn(out: &mut String, shape: CallShape, marker: &str, access: &str)
    ensures
        final(out)@ == old(out)@ + record_fn_text(shape, marker@, access@),
{
    out.append("    fn field(self) -> <Self as abstract_getters::Field<");
    out.append(marker);
    out.append(">>::Type { ");
    match shape {
        CallShape::Owned => {
            out.append("self.");
        },
        CallShape::Ref => {
            out.append("&self.");
        },
        CallShape::RefMut => {
            out.append("&mut self.");
        },
    }
    out.append(access);
    out.append(" }\n}\n");
    proof {
        assert(out@ =~= old(out)@ + record_fn_text(shape, marker@, access@));
    }
}

/// Appends the conditional extraction of a variant field and the closing
/// brace.
fn push_variant_fn(
    out: &mut String,
    shape: CallShape,
    marker: &str,
    name: &str,
    variant: &str,
    access: &str,
)
    ensures
        final(out)@ == old(out)@ + variant_fn_text(shape, marker@, name@, variant@, access@),
{
    out.append("    fn field(self) -> <Self as abstract_getters::Field<");
    out.append(marker);
    out.append(">>::Type {\n        match self {\n            ");
    match shape {
        CallShape::Owned => {
            out.append("Self");
        },
        CallShape::Ref | CallShape::RefMut => {
            out.append(name);
        },
    }
    out.append("::");
    out.append(variant);
    out.append(" { ");
    out.append(access);
    out.append(": __get_field, .. } => Some(__get_field),\n            _ => None,\n        }\n    }\n}\n");
    proof {
        assert(out@ =~= old(out)@ + variant_fn_text(shape, marker@, name@, variant@, access@));
    }
}

/// Appends one capability implementation for one field and one call-shape.
fn push_impl(
    out: &mut String,
    shape: CallShape,
    marker: &str,
    name: &str,
    ty: &str,
    g: &TypeGenerics,
    variant: Option<&str>,
    access: &str,
)
    ensures
        final(out)@ == old(out)@ + accessor_impl(
            shape,
            marker@,
            name@,
            ty@,
            g@,
            opt_view(variant),
            access@,
        ),
{
    push_header(out, shape, marker, name, g);
    push_type_line(out, shape, ty, variant.is_some());
    match variant {
        None => {
            push_record_fn(out, shape, marker, access);
        },
        Some(v) => {
            push_variant_fn(out, shape, marker, name, v, access);
        },
    }
    proof {
        assert(out@ =~= old(out)@ + accessor_impl(
            shape,
            marker@,
            name@,
            ty@,
            g@,
            opt_view(variant),
            access@,
        ));
    }
}

/// Generates an owned, a referential and a mutable capability implementation
/// for one field, together with the marker type that names the field.
pub fn generate_for_field(
    field_struct: &str,
    field_name: &str,
    struct_name: &str,
    ty: &str,
    generics: &TypeGenerics,
    enum_variant_name: Option<&str>,
) -> (out: String)
    ensures
        out@ == field_bundle(
            field_struct@,
            field_name@,
            struct_name@,
            ty@,
            generics@,
            opt_view(enum_variant_name),
        ),
{
    let mut out = String::new();
    out.append(
        "#[derive(Debug, Clone, Copy, PartialEq, Eq, Hash)]\n#[allow(non_camel_case_types)]\npub struct ",
    );
    out.append(field_struct);
    out.append(";\n");
    proof {
        assert(out@ =~= marker_decl(field_struct@));
    }
    push_impl(
        &mut out,
        CallShape::Owned,
        field_struct,
        struct_name,
        ty,
        generics,
        enum_variant_name,
        field_name,
    );
    push_impl(
        &mut out,
        CallShape::Ref,
        field_struct,
        struct_name,
        ty,
        generics,
        enum_variant_name,
        field_name,
    );
    push_impl(
        &mut out,
        CallShape::RefMut,
        field_struct,
        struct_name,
        ty,
        generics,
        enum_variant_name,
        field_name,
    );
    out
}

/// Generates the markers and capability implementations of every field of
/// one record shape, in declaration order: named fields keep their
/// identifier, positional fields are named by their index.
pub fn generate_for_fields(
    name: &str,
    generics: &TypeGenerics,
    fields: &FieldList,
    enum_variant_name: Option<&str>,
) -> (out: String)
    ensures
        out@ == fields_bundle(name@, generics@, fields@, opt_view(enum_variant_name)),
{
    let mut out = String::new();
    match fields {
        FieldList::Named(fs) => {
            let ghost fsv = fs@.map_values(|f: FieldDef| f@);
            let n = fs.len();
            let mut i: usize = 0;
            while i < n
                invariant
                    i <= n,
                    n == fs.len(),
                    fsv == fs@.map_values(|f: FieldDef| f@),
                    out@ == named_bundle(
                        name@,
                        generics@,
                        fsv.subrange(0, i as int),
                        opt_view(enum_variant_name),
                    ),
                decreases n - i,
            {
                let f = &fs[i];
                let piece = generate_for_field(
                    f.name.as_str(),
                    f.name.as_str(),
                    name,
                    f.ty.as_str(),
                    generics,
                    enum_variant_name,
                );
                out.append(piece.as_str());
                proof {
                    let pre = fsv.subrange(0, (i + 1) as int);
                    assert(pre.drop_last() =~= fsv.subrange(0, i as int));
                    assert(pre.last() == fsv[i as int]);
                }
                i += 1;
            }
            proof {
                assert(fsv.subrange(0, n as int) =~= fsv);
            }
        },
        FieldList::Unnamed(tys) => {
            let ghost tysv = tys@.map_values(|t: String| t@);
            let n = tys.len();
            let mut i: usize = 0;
            while i < n
                invariant
                    i <= n,
                    n == tys.len(),
                    tysv == tys@.map_values(|t: String| t@),
                    out@ == pos_bundle(
                        name@,
                        generics@,
                        tysv.subrange(0, i as int),
                        opt_view(enum_variant_name),
                    ),
                decreases n - i,
            {
                let marker = pos_marker(i);
                let index_text = dec_string(i);
                let piece = generate_for_field(
                    marker.as_str(),
                    index_text.as_str(),
                    name,
                    tys[i].as_str(),
                    generics,
                    enum_variant_name,
                );
                out.append(piece.as_str());
                proof {
                    let pre = tysv.subrange(0, (i + 1) as int);
                    assert(pre.drop_last() =~= tysv.subrange(0, i as int));
                    assert(pre.last() == tysv[i as int]);
                }
                i += 1;
            }
            proof {
                assert(tysv.subrange(0, n as int) =~= tysv);
            }
        },
        FieldList::Unit => {},
    }
    out
}

/// Generates the full accessor bundle for one input type: a namespace named
/// after the type holding one marker and three capability implementations
/// per field, nested one namespace deeper per tagged-union variant. Fails
/// exactly on untagged unions, with the diagnostic naming the construct.
#[verifier::rlimit(100)]
pub fn derive_getters(input: &TypeShape) -> (r: Result<String, GenError>)
    ensures
        match r {
            Ok(s) => !(input@.data is Union) && s@ == derive_text(input@),
            Err(e) => input@.data is Union && e == GenError::Union,
        },
{
    let snake = to_snake_case(input.name.as_str());
    let mut out = String::from_str("pub mod ");
    out.append(snake.as_str());
    out.append(" {\n    use super::*;\n");
    proof {
        assert(out@ =~= "pub mod "@ + snake_of(input@.name) + " {\n    use super::*;\n"@);
    }
    match &input.data {
        ShapeData::Struct(fl) => {
            let body = generate_for_fields(input.name.as_str(), &input.generics, fl, None);
            out.append(body.as_str());
        },
        ShapeData::Enum(vs) => {
            let ghost vsv = vs@.map_values(|v: VariantDef| v@);
            let ghost head = out@;
            let n = vs.len();
            let mut i: usize = 0;
            while i < n
                invariant
                    i <= n,
                    n == vs.len(),
                    vsv == vs@.map_values(|v: VariantDef| v@),
                    out@ == head + variants_bundle(
                        input@.name,
                        input@.generics,
                        vsv.subrange(0, i as int),
                    ),
                decreases n - i,
            {
                let v = &vs[i];
                let vmod = to_snake_case(v.name.as_str());
                out.append("pub mod ");
                out.append(vmod.as_str());
                out.append(" {\n    use super::*;\n");
                let body = generate_for_fields(
                    input.name.as_str(),
                    &input.generics,
                    &v.fields,
                    Some(v.name.as_str()),
                );
                out.append(body.as_str());
                out.append("}\n");
                proof {
                    let pre = vsv.subrange(0, (i + 1) as int);
                    assert(pre.drop_last() =~= vsv.subrange(0, i as int));
                    assert(pre.last() == vsv[i as int]);
                    assert(out@ =~= head + variants_bundle(
                        input@.name,
                        input@.generics,
                        pre,
                    ));
                }
                i += 1;
            }
            proof {
                assert(vsv.subrange(0, n as int) =~= vsv);
            }
        },
        ShapeData::Union => {
            return Err(GenError::Union);
        },
    }
    out.append("}\n");
    proof {
        assert(out@ =~= derive_text(input@));
    }
    Ok(out)
}

} // verus!
