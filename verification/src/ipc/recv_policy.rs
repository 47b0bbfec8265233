//! What a receive does with frames of unknown message type.

use vstd::prelude::*;

verus! {

/// Policy for unknown-type frames on receive.
#[derive(Debug, Clone, Copy, PartialEq, Eq)]
pub enum UnknownTypePolicy {
    /// Skip unknown types, within the consecutive unknown-frame budget.
    SkipBounded,
    /// Surface the first unknown type as an error.
    Strict,
}

} // verus!
