//! Text of numbers, for the printed forms of contacts and message elements.

use vstd::prelude::*;

verus! {

/// The text of `n` as the standard library writes a signed integer.
pub uninterp spec fn decimal(n: i64) -> Seq<char>;

/// `i64::to_string` of the standard library: the text depends on the number
/// alone. Nothing more is claimed of it here.
#[verifier::external_body]
pub(crate) fn i64_to_string(n: i64) -> (r: String)
    ensures
        r@ == decimal(n),
{
    n.to_string()
}

/// `prefix`, the text of `id`, and a closing bracket: the printed form of a
/// contact.
pub open spec fn tagged(prefix: Seq<char>, id: i64) -> Seq<char> {
    prefix + decimal(id) + ")"@
}

pub fn tagged_string(prefix: &str, id: i64) -> (r: String)
    ensures
        r@ == tagged(prefix@, id),
{
    let num = i64_to_string(id);
    prefix.to_owned().concat(num.as_str()).concat(")")
}

} // verus!
