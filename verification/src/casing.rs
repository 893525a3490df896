//! Conversion of wire field names to the generated accessors' snake_case
//! identifiers, through the `inflector` crate.

use vstd::prelude::*;

verus! {

/// The snake_case form of a name, as the case converter yields it. The
/// conversion's full rules live in the outside crate and are not restated
/// here; the result depends on the characters of the name alone.
pub uninterp spec fn snake_of(s: Seq<char>) -> Seq<char>;

/// Relies on inflector's `to_snake_case`: converts a wire field name to the
/// snake_case identifier under which the accessor is declared. The result is
/// a function of the input characters alone.
#[verifier::external_body]
pub(crate) fn to_snake_case(s: &str) -> (r: String)
    ensures
        r@ == snake_of(s@),
{
    inflector::cases::snakecase::to_snake_case(s)
}

} // verus!
