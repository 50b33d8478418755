//! The storage seam. No key-value backend is wired in yet.

use vstd::prelude::*;

verus! {

/// A handle on the key-value store.
pub struct Database;

impl Database {
    /// Opens a transaction; with no backend there is nothing to open.
    pub fn start_trx(&self) {
    }
}

} // verus!
