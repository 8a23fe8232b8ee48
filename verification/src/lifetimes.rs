//! Reference-lifetime demonstration: the returned reference is valid only
//! as long as the shorter-lived of the two input references, which the
//! single shared lifetime parameter expresses.

use vstd::prelude::*;
use vstd::string::StringSliceAdditionalSpecFns;

verus! {

/// The longer of the two string slices, measured in bytes; the second one
/// when they are equally long. The returned reference lives no longer than
/// the shorter-lived input.
pub fn longest<'a>(x: &'a str, y: &'a str) -> (r: &'a str)
    ensures
        x.len() > y.len() ==> r@ == x@ && r.spec_bytes() == x.spec_bytes(),
        x.len() <= y.len() ==> r@ == y@ && r.spec_bytes() == y.spec_bytes(),
        r.len() >= x.len(),
        r.len() >= y.len(),
{
    if x.len() > y.len() {
        x
    } else {
        y
    }
}

} // verus!
