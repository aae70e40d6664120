//! Identification of the shared domain-primitives subsystem.

use vstd::prelude::*;

verus! {

/// Returns the crate identifier of the domain-primitives subsystem.
pub fn crate_id() -> (r: &'static str)
    ensures
        r@ == "ogham-core"@,
{
    "ogham-core"
}

} // verus!
