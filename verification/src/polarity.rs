//! Mapping from logical on/off intent to electrical level.

use vstd::prelude::*;

verus! {

/// The electrical level that drives a line "logically on" or "logically
/// off" under the given wiring convention: on an active-low board the
/// logical and the electrical level are opposite, otherwise they agree.
/// `true` stands for electrically high.
pub open spec fn spec_resolve(logical_state: bool, active_low: bool) -> bool {
    logical_state != active_low
}

/// Resolves a logical on/off intent to the electrical level to drive,
/// given the board's wiring convention. The result is the exclusive or
/// of the two inputs.
pub fn resolve(logical_state: bool, active_low: bool) -> (electrical_state: bool)
    ensures
        electrical_state == spec_resolve(logical_state, active_low),
{
    logical_state ^ active_low
}

} // verus!
