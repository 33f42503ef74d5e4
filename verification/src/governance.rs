//! The governance layer: rights, consent, due process, erasure,
//! jurisdiction and accountability.

pub mod constitution;
pub mod consent;
pub mod due_process;
pub mod erasure;
pub mod jurisdiction;
pub mod accountability;
