//! Identification of the compiler subsystem.

use vstd::prelude::*;

verus! {

/// Returns the crate identifier of the compiler subsystem.
pub fn crate_id() -> (r: &'static str)
    ensures
        r@ == "ogham-compiler"@,
{
    "ogham-compiler"
}

} // verus!
