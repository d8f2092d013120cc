// The expansions that generation produces for each type stand here written
// out, with each namespaced marker flattened to a prefixed top-level name
// (`foo_3::t` becomes `foo_3_t`), since a test file holds no modules.

use core::fmt;
use std::fmt::Display;

use abstract_getters::{Field, Get};

#[derive(Debug, Clone)]
struct Foo3<'a, T> {
    t: T,
    re: &'a String,
}

#[derive(Debug, Clone, Copy, PartialEq, Eq, Hash)]
#[allow(non_camel_case_types)]
pub struct foo_3_t;
impl<'a, T> abstract_getters::Field<foo_3_t> for Foo3<'a, T> {
    type Type = T;
    fn field(self) -> <Self as abstract_getters::Field<foo_3_t>>::Type { self.t }
}
impl<'__top_level, 'a, T> abstract_getters::Field<foo_3_t> for &'__top_level Foo3<'a, T> {
    type Type = &'__top_level T;
    fn field(self) -> <Self as abstract_getters::Field<foo_3_t>>::Type { &self.t }
}
impl<'__top_level, 'a, T> abstract_getters::Field<foo_3_t> for &'__top_level mut Foo3<'a, T> {
    type Type = &'__top_level mut T;
    fn field(self) -> <Self as abstract_getters::Field<foo_3_t>>::Type { &mut self.t }
}

#[derive(Debug, Clone, Copy, PartialEq, Eq, Hash)]
#[allow(non_camel_case_types)]
pub struct foo_3_re;
impl<'a, T> abstract_getters::Field<foo_3_re> for Foo3<'a, T> {
    type Type = &'a String;
    fn field(self) -> <Self as abstract_getters::Field<foo_3_re>>::Type { self.re }
}
impl<'__top_level, 'a, T> abstract_getters::Field<foo_3_re> for &'__top_level Foo3<'a, T> {
    type Type = &'__top_level &'a String;
    fn field(self) -> <Self as abstract_getters::Field<foo_3_re>>::Type { &self.re }
}
impl<'__top_level, 'a, T> abstract_getters::Field<foo_3_re> for &'__top_level mut Foo3<'a, T> {
    type Type = &'__top_level mut &'a String;
    fn field(self) -> <Self as abstract_getters::Field<foo_3_re>>::Type { &mut self.re }
}

#[test]
fn test_derive() {
    let mut foo3 = Foo3 {
        t: 42,
        re: &"Hello".to_string(),
    };
    let _foo3_ref: &i32 = (&foo3).get::<foo_3_t>();
    let _foo3_mut: &mut i32 = (&mut foo3).get::<foo_3_t>();
    let _foo3_val: i32 = foo3.clone().get::<foo_3_t>();

    let _foo3_re_ref: &&String = (&foo3).get::<foo_3_re>();
    let _foo3_re_mut: &mut &String = (&mut foo3).get::<foo_3_re>();
    let _foo3_re_val: &String = foo3.get::<foo_3_re>();
}

fn abstract_get_field<'a, 'b, T, Name>(val: &'b Foo3<'a, T>) -> String
where
    &'b Foo3<'a, T>: Field<Name>,
    <&'b Foo3<'a, T> as Field<Name>>::Type: Display,
{
    val.get::<Name>().to_string()
}

#[test]
fn test_abstract_get_genetic() {
    let foo3 = Foo3 {
        t: 42,
        re: &"Hello".to_string(),
    };

    let field = abstract_get_field::<_, foo_3_t>(&foo3);
    assert_eq!(field, foo3.t.to_string());

    let re = abstract_get_field::<_, foo_3_re>(&foo3);
    assert_eq!(re, foo3.re.to_string());
}

#[derive(Debug, Clone)]
struct Simple {
    a: i32,
    b: String,
}

#[derive(Debug, Clone, Copy, PartialEq, Eq, Hash)]
#[allow(non_camel_case_types)]
pub struct simple_a;
impl abstract_getters::Field<simple_a> for Simple {
    type Type = i32;
    fn field(self) -> <Self as abstract_getters::Field<simple_a>>::Type { self.a }
}
impl<'__top_level> abstract_getters::Field<simple_a> for &'__top_level Simple {
    type Type = &'__top_level i32;
    fn field(self) -> <Self as abstract_getters::Field<simple_a>>::Type { &self.a }
}
impl<'__top_level> abstract_getters::Field<simple_a> for &'__top_level mut Simple {
    type Type = &'__top_level mut i32;
    fn field(self) -> <Self as abstract_getters::Field<simple_a>>::Type { &mut self.a }
}

#[derive(Debug, Clone, Copy, PartialEq, Eq, Hash)]
#[allow(non_camel_case_types)]
pub struct simple_b;
impl abstract_getters::Field<simple_b> for Simple {
    type Type = String;
    fn field(self) -> <Self as abstract_getters::Field<simple_b>>::Type { self.b }
}
impl<'__top_level> abstract_getters::Field<simple_b> for &'__top_level Simple {
    type Type = &'__top_level String;
    fn field(self) -> <Self as abstract_getters::Field<simple_b>>::Type { &self.b }
}
impl<'__top_level> abstract_getters::Field<simple_b> for &'__top_level mut Simple {
    type Type = &'__top_level mut String;
    fn field(self) -> <Self as abstract_getters::Field<simple_b>>::Type { &mut self.b }
}

#[derive(Debug, Clone)]
struct Simple2 {
    a: i32,
    b: String,
}

#[derive(Debug, Clone, Copy, PartialEq, Eq, Hash)]
#[allow(non_camel_case_types)]
pub struct simple_2_a;
impl abstract_getters::Field<simple_2_a> for Simple2 {
    type Type = i32;
    fn field(self) -> <Self as abstract_getters::Field<simple_2_a>>::Type { self.a }
}
impl<'__top_level> abstract_getters::Field<simple_2_a> for &'__top_level Simple2 {
    type Type = &'__top_level i32;
    fn field(self) -> <Self as abstract_getters::Field<simple_2_a>>::Type { &self.a }
}
impl<'__top_level> abstract_getters::Field<simple_2_a> for &'__top_level mut Simple2 {
    type Type = &'__top_level mut i32;
    fn field(self) -> <Self as abstract_getters::Field<simple_2_a>>::Type { &mut self.a }
}

#[derive(Debug, Clone, Copy, PartialEq, Eq, Hash)]
#[allow(non_camel_case_types)]
pub struct simple_2_b;
impl abstract_getters::Field<simple_2_b> for Simple2 {
    type Type = String;
    fn field(self) -> <Self as abstract_getters::Field<simple_2_b>>::Type { self.b }
}
impl<'__top_level> abstract_getters::Field<simple_2_b> for &'__top_level Simple2 {
    type Type = &'__top_level String;
    fn field(self) -> <Self as abstract_getters::Field<simple_2_b>>::Type { &self.b }
}
impl<'__top_level> abstract_getters::Field<simple_2_b> for &'__top_level mut Simple2 {
    type Type = &'__top_level mut String;
    fn field(self) -> <Self as abstract_getters::Field<simple_2_b>>::Type { &mut self.b }
}

fn field_to_string<'s, 't, Name, S, T>(from: &'s S) -> String
where
    &'s S: Get + Field<Name, Type = &'t T>,
    T: Display + 't,
{
    let got = from.get::<Name>();
    got.to_string()
}

fn require_i32<Name, S: Get + Field<Name, Type = i32>>(from: S) {
    let got: i32 = from.get::<Name>();
    assert_eq!(got, got);
}

#[test]
fn test_simple() {
    let simple = Simple {
        a: 42,
        b: "Hello".to_string(),
    };

    let a = (&simple).get::<simple_a>();
    let b = (&simple).get::<simple_b>();

    let a_string = field_to_string::<simple_a, _, _>(&simple);
    assert_eq!(a_string, simple.a.to_string());
    assert_eq!(a_string, a.to_string());

    let b_string = field_to_string::<simple_b, _, _>(&simple);
    assert_eq!(b_string, simple.b);
    assert_eq!(b_string, *b);

    require_i32::<simple_a, _>(simple);
}

#[test]
fn test_simple2() {
    let simple = Simple2 {
        a: 42,
        b: "Hello".to_string(),
    };

    let a = (&simple).get::<simple_2_a>();
    let b = (&simple).get::<simple_2_b>();

    let a_string = field_to_string::<simple_2_a, _, _>(&simple);
    assert_eq!(a_string, simple.a.to_string());
    assert_eq!(a_string, a.to_string());

    let b_string = field_to_string::<simple_2_b, _, _>(&simple);
    assert_eq!(b_string, simple.b);
    assert_eq!(b_string, *b);

    require_i32::<simple_2_a, _>(simple);
}

#[derive(Debug, Clone)]
struct Tuple(i32, String);

#[derive(Debug, Clone, Copy, PartialEq, Eq, Hash)]
#[allow(non_camel_case_types)]
pub struct tuple_0;
impl abstract_getters::Field<tuple_0> for Tuple {
    type Type = i32;
    fn field(self) -> <Self as abstract_getters::Field<tuple_0>>::Type { self.0 }
}
impl<'__top_level> abstract_getters::Field<tuple_0> for &'__top_level Tuple {
    type Type = &'__top_level i32;
    fn field(self) -> <Self as abstract_getters::Field<tuple_0>>::Type { &self.0 }
}
impl<'__top_level> abstract_getters::Field<tuple_0> for &'__top_level mut Tuple {
    type Type = &'__top_level mut i32;
    fn field(self) -> <Self as abstract_getters::Field<tuple_0>>::Type { &mut self.0 }
}

#[derive(Debug, Clone, Copy, PartialEq, Eq, Hash)]
#[allow(non_camel_case_types)]
pub struct tuple_1;
impl abstract_getters::Field<tuple_1> for Tuple {
    type Type = String;
    fn field(self) -> <Self as abstract_getters::Field<tuple_1>>::Type { self.1 }
}
impl<'__top_level> abstract_getters::Field<tuple_1> for &'__top_level Tuple {
    type Type = &'__top_level String;
    fn field(self) -> <Self as abstract_getters::Field<tuple_1>>::Type { &self.1 }
}
impl<'__top_level> abstract_getters::Field<tuple_1> for &'__top_level mut Tuple {
    type Type = &'__top_level mut String;
    fn field(self) -> <Self as abstract_getters::Field<tuple_1>>::Type { &mut self.1 }
}

impl fmt::Display for Tuple {
    fn fmt(&self, f: &mut fmt::Formatter) -> fmt::Result {
        f.debug_tuple("Tuple").finish()
    }
}

#[test]
fn test_tuple() {
    let tuple = Tuple(42, "Hello".to_string());

    let a = (&tuple).get::<tuple_0>();
    let b = (&tuple).get::<tuple_1>();

    let a_string = field_to_string::<tuple_0, _, _>(&tuple);
    assert_eq!(a_string, tuple.0.to_string());
    assert_eq!(a_string, a.to_string());

    let b_string = field_to_string::<tuple_1, _, _>(&tuple);
    assert_eq!(b_string, tuple.1);
    assert_eq!(b_string, *b);
}

enum DataEnum {
    InnerStruct(Tuple),
    Inline {
        a: i32,
        b: String,
    },
    Tuple(i32, String),
    #[allow(unused)]
    Unit,
    Single(i32),
}

#[derive(Debug, Clone, Copy, PartialEq, Eq, Hash)]
#[allow(non_camel_case_types)]
pub struct data_enum_inner_struct_0;
impl abstract_getters::Field<data_enum_inner_struct_0> for DataEnum {
    type Type = Option<Tuple>;
    fn field(self) -> <Self as abstract_getters::Field<data_enum_inner_struct_0>>::Type {
        match self {
            Self::InnerStruct { 0: __get_field, .. } => Some(__get_field),
            _ => None,
        }
    }
}
impl<'__top_level> abstract_getters::Field<data_enum_inner_struct_0> for &'__top_level DataEnum {
    type Type = Option<&'__top_level Tuple>;
    fn field(self) -> <Self as abstract_getters::Field<data_enum_inner_struct_0>>::Type {
        match self {
            DataEnum::InnerStruct { 0: __get_field, .. } => Some(__get_field),
            _ => None,
        }
    }
}
impl<'__top_level> abstract_getters::Field<data_enum_inner_struct_0> for &'__top_level mut DataEnum {
    type Type = Option<&'__top_level mut Tuple>;
    fn field(self) -> <Self as abstract_getters::Field<data_enum_inner_struct_0>>::Type {
        match self {
            DataEnum::InnerStruct { 0: __get_field, .. } => Some(__get_field),
            _ => None,
        }
    }
}

#[derive(Debug, Clone, Copy, PartialEq, Eq, Hash)]
#[allow(non_camel_case_types)]
pub struct data_enum_inline_a;
impl abstract_getters::Field<data_enum_inline_a> for DataEnum {
    type Type = Option<i32>;
    fn field(self) -> <Self as abstract_getters::Field<data_enum_inline_a>>::Type {
        match self {
            Self::Inline { a: __get_field, .. } => Some(__get_field),
            _ => None,
        }
    }
}
impl<'__top_level> abstract_getters::Field<data_enum_inline_a> for &'__top_level DataEnum {
    type Type = Option<&'__top_level i32>;
    fn field(self) -> <Self as abstract_getters::Field<data_enum_inline_a>>::Type {
        match self {
            DataEnum::Inline { a: __get_field, .. } => Some(__get_field),
            _ => None,
        }
    }
}
impl<'__top_level> abstract_getters::Field<data_enum_inline_a> for &'__top_level mut DataEnum {
    type Type = Option<&'__top_level mut i32>;
    fn field(self) -> <Self as abstract_getters::Field<data_enum_inline_a>>::Type {
        match self {
            DataEnum::Inline { a: __get_field, .. } => Some(__get_field),
            _ => None,
        }
    }
}

#[derive(Debug, Clone, Copy, PartialEq, Eq, Hash)]
#[allow(non_camel_case_types)]
pub struct data_enum_inline_b;
impl abstract_getters::Field<data_enum_inline_b> for DataEnum {
    type Type = Option<String>;
    fn field(self) -> <Self as abstract_getters::Field<data_enum_inline_b>>::Type {
        match self {
            Self::Inline { b: __get_field, .. } => Some(__get_field),
            _ => None,
        }
    }
}
impl<'__top_level> abstract_getters::Field<data_enum_inline_b> for &'__top_level DataEnum {
    type Type = Option<&'__top_level String>;
    fn field(self) -> <Self as abstract_getters::Field<data_enum_inline_b>>::Type {
        match self {
            DataEnum::Inline { b: __get_field, .. } => Some(__get_field),
            _ => None,
        }
    }
}
impl<'__top_level> abstract_getters::Field<data_enum_inline_b> for &'__top_level mut DataEnum {
    type Type = Option<&'__top_level mut String>;
    fn field(self) -> <Self as abstract_getters::Field<data_enum_inline_b>>::Type {
        match self {
            DataEnum::Inline { b: __get_field, .. } => Some(__get_field),
            _ => None,
        }
    }
}

#[derive(Debug, Clone, Copy, PartialEq, Eq, Hash)]
#[allow(non_camel_case_types)]
pub struct data_enum_tuple_0;
impl abstract_getters::Field<data_enum_tuple_0> for DataEnum {
    type Type = Option<i32>;
    fn field(self) -> <Self as abstract_getters::Field<data_enum_tuple_0>>::Type {
        match self {
            Self::Tuple { 0: __get_field, .. } => Some(__get_field),
            _ => None,
        }
    }
}
impl<'__top_level> abstract_getters::Field<data_enum_tuple_0> for &'__top_level DataEnum {
    type Type = Option<&'__top_level i32>;
    fn field(self) -> <Self as abstract_getters::Field<data_enum_tuple_0>>::Type {
        match self {
            DataEnum::Tuple { 0: __get_field, .. } => Some(__get_field),
            _ => None,
        }
    }
}
impl<'__top_level> abstract_getters::Field<data_enum_tuple_0> for &'__top_level mut DataEnum {
    type Type = Option<&'__top_level mut i32>;
    fn field(self) -> <Self as abstract_getters::Field<data_enum_tuple_0>>::Type {
        match self {
            DataEnum::Tuple { 0: __get_field, .. } => Some(__get_field),
            _ => None,
        }
    }
}

#[derive(Debug, Clone, Copy, PartialEq, Eq, Hash)]
#[allow(non_camel_case_types)]
pub struct data_enum_tuple_1;
impl abstract_getters::Field<data_enum_tuple_1> for DataEnum {
    type Type = Option<String>;
    fn field(self) -> <Self as abstract_getters::Field<data_enum_tuple_1>>::Type {
        match self {
            Self::Tuple { 1: __get_field, .. } => Some(__get_field),
            _ => None,
        }
    }
}
impl<'__top_level> abstract_getters::Field<data_enum_tuple_1> for &'__top_level DataEnum {
    type Type = Option<&'__top_level String>;
    fn field(self) -> <Self as abstract_getters::Field<data_enum_tuple_1>>::Type {
        match self {
            DataEnum::Tuple { 1: __get_field, .. } => Some(__get_field),
            _ => None,
        }
    }
}
impl<'__top_level> abstract_getters::Field<data_enum_tuple_1> for &'__top_level mut DataEnum {
    type Type = Option<&'__top_level mut String>;
    fn field(self) -> <Self as abstract_getters::Field<data_enum_tuple_1>>::Type {
        match self {
            DataEnum::Tuple { 1: __get_field, .. } => Some(__get_field),
            _ => None,
        }
    }
}

#[derive(Debug, Clone, Copy, PartialEq, Eq, Hash)]
#[allow(non_camel_case_types)]
pub struct data_enum_single_0;
impl abstract_getters::Field<data_enum_single_0> for DataEnum {
    type Type = Option<i32>;
    fn field(self) -> <Self as abstract_getters::Field<data_enum_single_0>>::Type {
        match self {
            Self::Single { 0: __get_field, .. } => Some(__get_field),
            _ => None,
        }
    }
}
impl<'__top_level> abstract_getters::Field<data_enum_single_0> for &'__top_level DataEnum {
    type Type = Option<&'__top_level i32>;
    fn field(self) -> <Self as abstract_getters::Field<data_enum_single_0>>::Type {
        match self {
            DataEnum::Single { 0: __get_field, .. } => Some(__get_field),
            _ => None,
        }
    }
}
impl<'__top_level> abstract_getters::Field<data_enum_single_0> for &'__top_level mut DataEnum {
    type Type = Option<&'__top_level mut i32>;
    fn field(self) -> <Self as abstract_getters::Field<data_enum_single_0>>::Type {
        match self {
            DataEnum::Single { 0: __get_field, .. } => Some(__get_field),
            _ => None,
        }
    }
}

impl DataEnum {
    fn inline(self) -> (i32, String) {
        match self {
            DataEnum::Inline { a, b } => (a, b),
            _ => panic!("Not an inline variant"),
        }
    }

    fn try_into_single(self) -> Option<i32> {
        if let Self::Single(v) = self {
            Some(v)
        } else {
            None
        }
    }
}

fn field_to_string_opt<'s, 't, Name, S, T>(from: &'s S) -> Option<String>
where
    &'s S: Get + Field<Name, Type = Option<&'t T>>,
    T: Display + 't,
{
    let got = from.get::<Name>();
    got.map(ToString::to_string)
}

fn require_i32_opt<Name, S: Get + Field<Name, Type = Option<i32>>>(from: S) {
    let got: Option<i32> = from.get::<Name>();
    assert_eq!(got, got);
}

#[test]
fn test_data_enum() {
    let data = DataEnum::InnerStruct(Tuple(42, "Hello".to_string()));

    let _a: Option<&Tuple> = (&data).get::<data_enum_inner_struct_0>();

    let a_string = field_to_string_opt::<data_enum_inline_a, _, _>(&data);
    assert_eq!(a_string, None);

    let data = DataEnum::Inline {
        a: 42,
        b: "Hello".to_string(),
    };
    let a_string = field_to_string_opt::<data_enum_inline_a, _, _>(&data);
    assert_eq!(a_string.unwrap(), data.inline().0.to_string());

    require_i32_opt::<data_enum_single_0, _>(DataEnum::Single(0));

    let data = DataEnum::Single(0);
    let a_string = field_to_string_opt::<data_enum_single_0, _, _>(&data);
    assert_eq!(
        a_string.unwrap(),
        data.try_into_single().unwrap().to_string()
    );

    let mut data = DataEnum::Tuple(0, "Hello".to_string());
    let _tuple: Option<&i32> = (&data).get::<data_enum_tuple_0>();
    let _tuple: Option<&mut String> = (&mut data).get::<data_enum_tuple_1>();
}

struct InnerStruct(Tuple);

#[derive(Debug, Clone, Copy, PartialEq, Eq, Hash)]
#[allow(non_camel_case_types)]
pub struct inner_struct_0;
impl abstract_getters::Field<inner_struct_0> for InnerStruct {
    type Type = Tuple;
    fn field(self) -> <Self as abstract_getters::Field<inner_struct_0>>::Type { self.0 }
}
impl<'__top_level> abstract_getters::Field<inner_struct_0> for &'__top_level InnerStruct {
    type Type = &'__top_level Tuple;
    fn field(self) -> <Self as abstract_getters::Field<inner_struct_0>>::Type { &self.0 }
}
impl<'__top_level> abstract_getters::Field<inner_struct_0> for &'__top_level mut InnerStruct {
    type Type = &'__top_level mut Tuple;
    fn field(self) -> <Self as abstract_getters::Field<inner_struct_0>>::Type { &mut self.0 }
}

#[test]
fn test_inner_struct() {
    let inner = InnerStruct(Tuple(42, "Hello".to_string()));

    let _a: &Tuple = (&inner).get::<inner_struct_0>();

    let tuple_ref = (&inner).get::<inner_struct_0>();
    assert_eq!(tuple_ref.to_string(), inner.0.to_string());
    let a_string = tuple_ref.get::<tuple_0>().to_string();
    assert_eq!(a_string, inner.0 .0.to_string());
}
