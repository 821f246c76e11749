//! Version introspection of the embedded engine.

use vstd::prelude::*;

use crate::engine;

verus! {

/// The engine's version string, as the built-against engine publishes it.
pub open spec fn engine_version_view() -> Seq<char> {
    "55.2.0"@
}

/// Returns the embedded engine's version identifier. The result is the fixed
/// string the engine publishes, so it is non-empty and identical across
/// repeated calls within a process.
pub fn get_version() -> (r: String)
    ensures
        r@ == engine_version_view(),
        r@.len() > 0,
{
    let v = engine::engine_version();
    proof {
        reveal_strlit("55.2.0");
    }
    v
}

} // verus!
