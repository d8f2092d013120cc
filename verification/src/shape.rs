use vstd::prelude::*;

verus! {

/// A named field of a record or of a tagged-union variant: its identifier
/// and the text of its declared type.
pub struct FieldDef {
    pub name: String,
    pub ty: String,
}

/// Spec-level form of a [FieldDef].
pub ghost struct FieldDefView {
    pub name: Seq<char>,
    pub ty: Seq<char>,
}

impl View for FieldDef {
    type V = FieldDefView;

    open spec fn view(&self) -> FieldDefView {
        FieldDefView { name: self.name@, ty: self.ty@ }
    }
}

/// The fields of one record or of one tagged-union variant.
pub enum FieldList {
    /// Named fields, in declaration order.
    Named(Vec<FieldDef>),
    /// Positional fields, in declaration order: only their declared types.
    Unnamed(Vec<String>),
    /// No fields at all (a unit record or a unit variant).
    Unit,
}

/// Spec-level form of a [FieldList].
pub ghost enum FieldListView {
    Named(Seq<FieldDefView>),
    Unnamed(Seq<Seq<char>>),
    Unit,
}

impl View for FieldList {
    type V = FieldListView;

    open spec fn view(&self) -> FieldListView {
        match self {
            FieldList::Named(fs) => FieldListView::Named(fs@.map_values(|f: FieldDef| f@)),
            FieldList::Unnamed(tys) => FieldListView::Unnamed(tys@.map_values(|t: String| t@)),
            FieldList::Unit => FieldListView::Unit,
        }
    }
}

/// One variant of a tagged union: its identifier and its own record shape.
pub struct VariantDef {
    pub name: String,
    pub fields: FieldList,
}

/// Spec-level form of a [VariantDef].
pub ghost struct VariantDefView {
    pub name: Seq<char>,
    pub fields: FieldListView,
}

impl View for VariantDef {
    type V = VariantDefView;

    open spec fn view(&self) -> VariantDefView {
        VariantDefView { name: self.name@, fields: self.fields@ }
    }
}

/// The declared form of the input type's data.
pub enum ShapeData {
    /// A record: named fields, positional fields, or none.
    Struct(FieldList),
    /// A tagged union: a list of variants, each a record shape of its own.
    Enum(Vec<VariantDef>),
    /// An untagged (overlapping-storage) union: generation rejects it.
    Union,
}

/// Spec-level form of a [ShapeData].
pub ghost enum ShapeDataView {
    Struct(FieldListView),
    Enum(Seq<VariantDefView>),
    Union,
}

impl View for ShapeData {
    type V = ShapeDataView;

    open spec fn view(&self) -> ShapeDataView {
        match self {
            ShapeData::Struct(fl) => ShapeDataView::Struct(fl@),
            ShapeData::Enum(vs) => ShapeDataView::Enum(vs@.map_values(|v: VariantDef| v@)),
            ShapeData::Union => ShapeDataView::Union,
        }
    }
}

/// The input type's generic parameter lists, already rendered to text.
pub struct TypeGenerics {
    /// The bare parameter list, e.g. `'a, T`; empty for a non-generic type.
    pub params: String,
    /// The parameter list with its bounds, in angle brackets, e.g. `<'a, T: Clone>`;
    /// empty for a non-generic type.
    pub impl_generics: String,
    /// The parameter list without bounds, in angle brackets, e.g. `<'a, T>`;
    /// empty for a non-generic type.
    pub ty_generics: String,
    /// The `where` clause, e.g. `where T: Clone`; empty when there is none.
    pub where_clause: String,
}

/// Spec-level form of a [TypeGenerics].
pub ghost struct TypeGenericsView {
    pub params: Seq<char>,
    pub impl_generics: Seq<char>,
    pub ty_generics: Seq<char>,
    pub where_clause: Seq<char>,
}

impl View for TypeGenerics {
    type V = TypeGenericsView;

    open spec fn view(&self) -> TypeGenericsView {
        TypeGenericsView {
            params: self.params@,
            impl_generics: self.impl_generics@,
            ty_generics: self.ty_generics@,
            where_clause: self.where_clause@,
        }
    }
}

/// The declared shape of one input type, as generation reads it.
pub struct TypeShape {
    /// The type's identifier.
    pub name: String,
    /// The type's generic parameters.
    pub generics: TypeGenerics,
    /// The type's data: record, tagged union, or untagged union.
    pub data: ShapeData,
}

/// Spec-level form of a [TypeShape].
pub ghost struct TypeShapeView {
    pub name: Seq<char>,
    pub generics: TypeGenericsView,
    pub data: ShapeDataView,
}

impl View for TypeShape {
    type V = TypeShapeView;

    open spec fn view(&self) -> TypeShapeView {
        TypeShapeView { name: self.name@, generics: self.generics@, data: self.data@ }
    }
}

/// Why generation was refused.
#[derive(Debug, Clone, Copy, PartialEq, Eq, Structural)]
pub enum GenError {
    /// The input type is an untagged union.
    Union,
}

impl GenError {
    /// The diagnostic text for this error.
    pub fn message(&self) -> (r: &'static str)
        ensures
            *self == GenError::Union ==> r@ == "Getters cannot be derived for unions"@,
    {
        match self {
            GenError::Union => "Getters cannot be derived for unions",
        }
    }
}

} // verus!
