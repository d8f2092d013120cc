use vstd::prelude::*;

pub mod capability;
pub mod casing;
pub mod decimal;
pub mod generate;
pub mod laws;
pub mod shape;

verus! {

/// Defines a [Field] for a struct with a specific [type](Field::Type).
pub trait Field<Name> {
    type Type;

    /// The value of the field, as the contracts see it: extraction is a pure
    /// function of `self`. An implementation outside the library leaves the
    /// default, an underdetermined but fixed function.
    open spec fn field_spec(self) -> Self::Type where Self: Sized {
        vstd::pervasive::arbitrary()
    }

    /// Returns the value of a field.
    fn field(self) -> (r: Self::Type) where
        Self: Sized,

        ensures
            r == <Self as Field<Name>>::field_spec(self),
    ;
}

/// A trait for [Get]ting a value from a specific [Field] with a specific [Field::Type].
pub trait Get: Sized {
    /// Returns a value of a [field](Field) called `Name`.
    fn get<Name>(self) -> (r: <Self as Field<Name>>::Type) where
        Self: Field<Name>,

        ensures
            r == <Self as Field<Name>>::field_spec(self),
    {
        <Self as Field<Name>>::field(self)
    }
}

/// Allow to get field from all types.
impl<T> Get for T {}

} // verus!
