//! Per-group ceiling on the number of channel clocks.
use vstd::prelude::*;

verus! {

/// A new channel clock may be created while the group holds fewer than
/// `max` channel clocks.
pub open spec fn creation_allowed(current_count: int, max: int) -> bool {
    current_count < max
}

/// Decides whether a group that already holds `current_count` channel clocks
/// may create another one under a ceiling of `max`.
pub fn allow_creation(current_count: u32, max: u32) -> (r: bool)
    ensures
        r == creation_allowed(current_count as int, max as int),
{
    current_count < max
}

} // verus!
