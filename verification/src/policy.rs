//! What a buffer does with a record that arrives while it is full.

use vstd::prelude::*;

verus! {

/// The overflow policy of a buffer.
#[derive(Debug, PartialEq, Eq, Structural, Copy, Clone)]
pub enum WhenFull {
    /// The producer waits until the buffer has room again.
    Block,
    /// The record that does not fit is discarded and the producer goes on.
    DropNewest,
}

impl Default for WhenFull {
    /// A buffer blocks unless it is told otherwise.
    fn default() -> (policy: Self)
        ensures
            policy == WhenFull::Block,
    {
        WhenFull::Block
    }
}

} // verus!
