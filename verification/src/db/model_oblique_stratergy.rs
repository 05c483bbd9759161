//! The phrase-pool row under its older spelling, kept for the store's
//! earlier schema.

use vstd::prelude::*;

verus! {

/// One row of the phrase pool in the store's earlier schema, which spelled
/// the column differently.
#[derive(Debug, Clone)]
pub struct ModelObliqueStratergy {
    pub stratergy: String,
}

} // verus!
