use vstd::prelude::*;
use crate::{Field, Get};

verus! {

// The capability contract, exercised on representative shapes. The
// implementations below are what generation emits for these two types, with
// the markers written flat (a module cannot nest here), and the retrieval
// functions at the bottom are proved from the contract alone: retrieval by
// marker is direct access to the named field, and variant retrieval is
// present exactly when the active variant matches. The mutable-reference
// call-shape has no counterpart here, since a mutable borrow cannot stand in
// specification context, and each type carries a single marker, since the
// verifier cannot yet elaborate the trait's contract for a type that holds
// the capability for several markers; the tests exercise both at runtime.

/// A representative record with two fields.
pub struct Sample {
    pub first: u64,
    pub second: u64,
}

/// The marker of `Sample`'s field `first`.
#[derive(Debug, Clone, Copy, PartialEq, Eq, Hash)]
pub struct First;

impl Field<First> for Sample {
    type Type = u64;

    open spec fn field_spec(self) -> u64 {
        self.first
    }

    fn field(self) -> (r: u64)
        ensures
            r == <Self as Field<First>>::field_spec(self),
    {
        self.first
    }
}

impl<'a> Field<First> for &'a Sample {
    type Type = &'a u64;

    open spec fn field_spec(self) -> &'a u64 {
        &self.first
    }

    fn field(self) -> (r: &'a u64)
        ensures
            r == <Self as Field<First>>::field_spec(self),
    {
        &self.first
    }
}

/// A representative tagged union with two variants of the same field type.
pub enum Choice {
    Left(u64),
    Right(u64),
}

/// The marker of the positional field `_0` of `Choice`'s variant `Left`.
#[derive(Debug, Clone, Copy, PartialEq, Eq, Hash)]
pub struct Left0;

impl Field<Left0> for Choice {
    type Type = Option<u64>;

    open spec fn field_spec(self) -> Option<u64> {
        match self {
            Choice::Left(v) => Some(v),
            _ => None,
        }
    }

    fn field(self) -> (r: Option<u64>)
        ensures
            r == <Self as Field<Left0>>::field_spec(self),
    {
        match self {
            Choice::Left { 0: __get_field, .. } => Some(__get_field),
            _ => None,
        }
    }
}

impl<'a> Field<Left0> for &'a Choice {
    type Type = Option<&'a u64>;

    open spec fn field_spec(self) -> Option<&'a u64> {
        match self {
            Choice::Left(v) => Some(v),
            _ => None,
        }
    }

    fn field(self) -> (r: Option<&'a u64>)
        ensures
            r == <Self as Field<Left0>>::field_spec(self),
    {
        match self {
            Choice::Left { 0: __get_field, .. } => Some(__get_field),
            _ => None,
        }
    }
}

/// Retrieval by value returns exactly the field the marker names — the
/// contract pins it to `first`, never `second`.
pub fn retrieve_first(s: Sample) -> (r: u64)
    ensures
        r == s.first,
{
    s.get::<First>()
}

/// Retrieval by reference borrows exactly the field the marker names.
pub fn retrieve_first_ref<'a>(s: &'a Sample) -> (r: &'a u64)
    ensures
        *r == s.first,
{
    s.get::<First>()
}

/// Variant retrieval by value: present with the field's value when the active
/// variant is the marker's, absent otherwise.
pub fn retrieve_left(c: Choice) -> (r: Option<u64>)
    ensures
        match c {
            Choice::Left(v) => r == Some(v),
            Choice::Right(_) => r is None,
        },
{
    c.get::<Left0>()
}

/// Variant retrieval by reference: the same conditional presence, borrowing
/// the field.
pub fn retrieve_left_ref<'a>(c: &'a Choice) -> (r: Option<&'a u64>)
    ensures
        match *c {
            Choice::Left(v) => r matches Some(rv) && *rv == v,
            Choice::Right(_) => r is None,
        },
{
    c.get::<Left0>()
}

} // verus!
