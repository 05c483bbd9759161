//! A phrase from the pool the alarm message falls back to.

use vstd::prelude::*;

verus! {

/// One row of the phrase pool the store keeps; the dispatcher draws one at
/// random when an alarm fires without a message of its own.
#[derive(Debug, Clone)]
pub struct ModelObliqueStrategy {
    pub strategy: String,
}

} // verus!
