//! What the pool tells its workers.

use vstd::prelude::*;

verus! {

/// A command to a worker.
#[derive(Clone, Copy, Debug, PartialEq, Eq, Structural)]
pub enum Message {
    /// Stop at the next pass boundary.
    Terminate,
}

} // verus!
