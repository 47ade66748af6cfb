//! Model of a single digital output line.

use vstd::prelude::*;
use crate::polarity::{resolve, spec_resolve};

verus! {

/// One controllable digital output line. The struct records the electrical
/// level the line was last driven to (`true` for high), which is exactly
/// the state of the underlying hardware pin: the line itself keeps no
/// further state, so driving it is idempotent.
#[derive(Clone, Copy, PartialEq, Eq, Structural, Debug)]
pub struct OutputLine {
    /// Electrical level of the line, `true` for high.
    pub high: bool,
}

/// The line after it has been driven to the given logical state under the
/// given wiring convention. The result does not depend on the line's
/// previous level.
pub open spec fn driven(line: OutputLine, logical_state: bool, active_low: bool) -> OutputLine {
    OutputLine { high: spec_resolve(logical_state, active_low) }
}

impl OutputLine {
    /// A fresh line at the given electrical level.
    pub fn new(high: bool) -> (line: OutputLine)
        ensures
            line.high == high,
    {
        OutputLine { high }
    }

    /// Drives the line electrically high.
    pub fn assert_high(&mut self)
        ensures
            final(self).high,
    {
        self.high = true;
    }

    /// Drives the line electrically low.
    pub fn assert_low(&mut self)
        ensures
            !final(self).high,
    {
        self.high = false;
    }

    /// Drives the line to the electrical level that the given logical
    /// state resolves to under the given wiring convention.
    pub fn drive_logical(&mut self, logical_state: bool, active_low: bool)
        ensures
            *final(self) == driven(*old(self), logical_state, active_low),
    {
        if resolve(logical_state, active_low) {
            self.assert_high();
        } else {
            self.assert_low();
        }
    }
}

/// Driving a line to the same logical level twice in a row leaves it at
/// the same electrical level as driving it once: a line has no hidden
/// toggle state.
pub proof fn lemma_drive_idempotent(line: OutputLine, logical_state: bool, active_low: bool)
    ensures
        driven(driven(line, logical_state, active_low), logical_state, active_low)
            == driven(line, logical_state, active_low),
{
}

} // verus!
