//! What the verifier is told of std's text comparison.

use vstd::prelude::*;

verus! {

/// `str`'s `==`. Trusted: two texts compare equal exactly when they hold the
/// same characters in the same order.
pub assume_specification[ <str as PartialEq>::eq ](a: &str, b: &str) -> (r: bool)
    ensures
        r == (a@ == b@),
;

} // verus!
