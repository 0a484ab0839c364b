//! The handler: a constant greeting.

use vstd::prelude::*;

verus! {

/// The text that every greeted request receives.
pub open spec fn greeting() -> Seq<char> {
    "Hello World"@
}

/// The handler behind `GET /`: it ignores the request and returns the
/// greeting.
pub fn hello_world() -> (r: &'static str)
    ensures
        r@ == greeting(),
{
    "Hello World"
}

} // verus!
