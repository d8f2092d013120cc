use vstd::prelude::*;
use convert_case::Casing;

verus! {

/// The snake-cased form of an identifier, as convert_case's `Case::Snake`
/// conversion defines it. Generation derives every namespace identifier from
/// the owning type's or variant's name through this function.
pub uninterp spec fn snake_of(s: Seq<char>) -> Seq<char>;

/// Relies on convert_case's `Casing::to_case` with `Case::Snake`: a pure
/// conversion whose result depends on the input characters alone.
#[verifier::external_body]
pub(crate) fn to_snake_case(s: &str) -> (r: String)
    ensures
        r@ == snake_of(s@),
{
    s.to_case(convert_case::Case::Snake)
}

} // verus!
