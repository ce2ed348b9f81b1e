//! A revisioned key-value store: every mutation is appended to a log under a
//! globally increasing revision, and the visible state of each key is derived
//! from the log by query.
use vstd::prelude::*;

pub mod laws;
pub mod log;
pub mod memory;
pub mod text;
pub mod traits;

verus! {

/// A revision: the id of a log row, assigned from one global counter.
pub type Revision = i64;

} // verus!
