//! Plain records shared by the engine's front ends.

use vstd::prelude::*;

verus! {

/// Database statistics.
#[derive(Debug, Clone)]
pub struct DbStats {
    pub reflex_count: usize,
    pub db_size_bytes: u64,
}

} // verus!
