//! The configuration snapshot that travels with every pass.

use vstd::prelude::*;

verus! {

/// Settings that the host hands down the widget tree: pairs of a key and a
/// value. A pass only reads it.
pub struct Env {
    pub settings: Vec<(u64, i64)>,
}

} // verus!
