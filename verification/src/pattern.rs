//! Blink pattern shapes and the phase machine that cycles through them.

use vstd::prelude::*;

verus! {

/// Shape of the blink pattern a board runs.
#[derive(Clone, Copy, PartialEq, Eq, Structural, Debug)]
pub enum PatternShape {
    /// Three short blinks, then a pause: three repetitions of 100 ms on
    /// and 400 ms off, followed by a 1000 ms pause, repeated forever.
    ThreeBlink,
    /// Two phases only: `on_ms` on, then `off_ms` off, repeated forever
    /// with no grouping and no pause.
    Simple { on_ms: u32, off_ms: u32 },
}

/// One phase of a pattern. For `ThreeBlink`, `rep` counts the blink
/// within the group, from 1 to 3; for `Simple`, `rep` is always 1 and the
/// `Pause` phase never occurs.
#[derive(Clone, Copy, PartialEq, Eq, Structural, Debug)]
pub enum Phase {
    On { rep: u8 },
    Off { rep: u8 },
    Pause,
}

/// Number of on/off repetitions in one cycle of the shape.
pub open spec fn shape_reps(shape: PatternShape) -> u8 {
    match shape {
        PatternShape::ThreeBlink => 3,
        PatternShape::Simple { .. } => 1,
    }
}

/// Whether the phase can occur while running the shape: repetition
/// numbers stay between 1 and the shape's repetition count, and only the
/// grouped shape has a pause phase.
pub open spec fn phase_wf(shape: PatternShape, phase: Phase) -> bool {
    match phase {
        Phase::On { rep } => 1 <= rep && rep <= shape_reps(shape),
        Phase::Off { rep } => 1 <= rep && rep <= shape_reps(shape),
        Phase::Pause => shape is ThreeBlink,
    }
}

/// How long the given phase of the given shape lasts, in milliseconds.
pub open spec fn phase_delay_ms(shape: PatternShape, phase: Phase) -> u32 {
    match shape {
        PatternShape::ThreeBlink => match phase {
            Phase::On { .. } => 100,
            Phase::Off { .. } => 400,
            Phase::Pause => 1000,
        },
        PatternShape::Simple { on_ms, off_ms } => match phase {
            Phase::On { .. } => on_ms,
            Phase::Off { .. } => off_ms,
            Phase::Pause => 0,
        },
    }
}

/// The phase that follows the given one: each on phase is followed by the
/// off phase of the same repetition; the last off phase of a group leads
/// to the pause (grouped shape) or straight back to the first on phase
/// (simple shape); the pause leads back to the first on phase.
pub open spec fn spec_next_phase(shape: PatternShape, phase: Phase) -> Phase {
    match phase {
        Phase::On { rep } => Phase::Off { rep },
        Phase::Off { rep } => if rep < shape_reps(shape) {
            Phase::On { rep: (rep + 1) as u8 }
        } else if shape is ThreeBlink {
            Phase::Pause
        } else {
            Phase::On { rep: 1 }
        },
        Phase::Pause => Phase::On { rep: 1 },
    }
}

/// Number of phases in one full cycle of the shape: three on/off pairs
/// and a pause for the grouped shape, one on/off pair for the simple one.
pub open spec fn cycle_len(shape: PatternShape) -> nat {
    match shape {
        PatternShape::ThreeBlink => 7,
        PatternShape::Simple { .. } => 2,
    }
}

/// The phase reached after `n` steps from the start of the pattern (the
/// first on phase).
pub open spec fn phase_at(shape: PatternShape, n: nat) -> Phase
    decreases n,
{
    if n == 0 {
        Phase::On { rep: 1 }
    } else {
        spec_next_phase(shape, phase_at(shape, (n - 1) as nat))
    }
}

/// Total time spent in the first `n` phases of the pattern, in
/// milliseconds.
pub open spec fn elapsed_ms(shape: PatternShape, n: nat) -> int
    decreases n,
{
    if n == 0 {
        0
    } else {
        elapsed_ms(shape, (n - 1) as nat)
            + phase_delay_ms(shape, phase_at(shape, (n - 1) as nat))
    }
}

/// Every phase reached from the start of the pattern is well formed.
pub proof fn lemma_phase_at_wf(shape: PatternShape, n: nat)
    ensures
        phase_wf(shape, phase_at(shape, n)),
    decreases n,
{
    if n > 0 {
        lemma_phase_at_wf(shape, (n - 1) as nat);
    }
}

/// After one full cycle the pattern is back at its starting phase.
pub proof fn lemma_cycle_returns(shape: PatternShape)
    ensures
        phase_at(shape, cycle_len(shape)) == (Phase::On { rep: 1u8 }),
{
    reveal_with_fuel(phase_at, 8);
}

/// The pattern repeats with period `cycle_len(shape)` and without drift:
/// shifting by one full cycle reaches the same phase again, exactly one
/// cycle's total time later.
pub proof fn lemma_cycle_repeats(shape: PatternShape, n: nat)
    ensures
        phase_at(shape, n + cycle_len(shape)) == phase_at(shape, n),
        elapsed_ms(shape, n + cycle_len(shape))
            == elapsed_ms(shape, n) + elapsed_ms(shape, cycle_len(shape)),
    decreases n,
{
    if n == 0 {
        lemma_cycle_returns(shape);
    } else {
        lemma_cycle_repeats(shape, (n - 1) as nat);
        assert(phase_at(shape, n + cycle_len(shape))
            == spec_next_phase(shape, phase_at(shape, (n - 1) as nat + cycle_len(shape))));
    }
}

/// One full cycle of the three-blink pattern is three repetitions of
/// 100 ms on and 400 ms off, then a 1000 ms pause: 2500 ms in all, and
/// the pattern repeats indefinitely with that period.
pub proof fn lemma_three_blink_cycle_total()
    ensures
        cycle_len(PatternShape::ThreeBlink) == 7,
        elapsed_ms(PatternShape::ThreeBlink, 7) == 2500,
        forall|n: nat|
            phase_at(PatternShape::ThreeBlink, n + 7)
                == #[trigger] phase_at(PatternShape::ThreeBlink, n),
        forall|n: nat|
            elapsed_ms(PatternShape::ThreeBlink, n + 7)
                == #[trigger] elapsed_ms(PatternShape::ThreeBlink, n) + 2500,
{
    reveal_with_fuel(phase_at, 8);
    reveal_with_fuel(elapsed_ms, 8);
    assert forall|n: nat|
        phase_at(PatternShape::ThreeBlink, n + 7)
            == #[trigger] phase_at(PatternShape::ThreeBlink, n)
            && elapsed_ms(PatternShape::ThreeBlink, n + 7)
                == #[trigger] elapsed_ms(PatternShape::ThreeBlink, n) + 2500 by {
        lemma_cycle_repeats(PatternShape::ThreeBlink, n);
    }
}

/// One full cycle of the simple pattern is `on_ms` on and `off_ms` off,
/// and the pattern repeats indefinitely with that period.
pub proof fn lemma_simple_cycle_total(on_ms: u32, off_ms: u32)
    ensures
        cycle_len(PatternShape::Simple { on_ms, off_ms }) == 2,
        elapsed_ms(PatternShape::Simple { on_ms, off_ms }, 2) == on_ms + off_ms,
        forall|n: nat|
            phase_at(PatternShape::Simple { on_ms, off_ms }, n + 2)
                == #[trigger] phase_at(PatternShape::Simple { on_ms, off_ms }, n),
        forall|n: nat|
            elapsed_ms(PatternShape::Simple { on_ms, off_ms }, n + 2)
                == #[trigger] elapsed_ms(PatternShape::Simple { on_ms, off_ms }, n) + on_ms + off_ms,
{
    reveal_with_fuel(phase_at, 3);
    reveal_with_fuel(elapsed_ms, 3);
    assert forall|n: nat|
        phase_at(PatternShape::Simple { on_ms, off_ms }, n + 2)
            == #[trigger] phase_at(PatternShape::Simple { on_ms, off_ms }, n)
            && elapsed_ms(PatternShape::Simple { on_ms, off_ms }, n + 2)
                == #[trigger] elapsed_ms(PatternShape::Simple { on_ms, off_ms }, n) + on_ms
                + off_ms by {
        lemma_cycle_repeats(PatternShape::Simple { on_ms, off_ms }, n);
    }
}

/// The delay of the given phase of the given shape, as an executable
/// value.
pub fn delay_of(shape: PatternShape, phase: Phase) -> (delay_ms: u32)
    ensures
        delay_ms == phase_delay_ms(shape, phase),
{
    match shape {
        PatternShape::ThreeBlink => match phase {
            Phase::On { .. } => 100,
            Phase::Off { .. } => 400,
            Phase::Pause => 1000,
        },
        PatternShape::Simple { on_ms, off_ms } => match phase {
            Phase::On { .. } => on_ms,
            Phase::Off { .. } => off_ms,
            Phase::Pause => 0,
        },
    }
}

/// The phase that follows the given one, as an executable value.
pub fn next_phase(shape: PatternShape, phase: Phase) -> (next: Phase)
    requires
        phase_wf(shape, phase),
    ensures
        next == spec_next_phase(shape, phase),
        phase_wf(shape, next),
{
    match phase {
        Phase::On { rep } => Phase::Off { rep },
        Phase::Off { rep } => {
            let reps: u8 = match shape {
                PatternShape::ThreeBlink => 3,
                PatternShape::Simple { .. } => 1,
            };
            if rep < reps {
                Phase::On { rep: rep + 1 }
            } else if matches!(shape, PatternShape::ThreeBlink) {
                Phase::Pause
            } else {
                Phase::On { rep: 1 }
            }
        },
        Phase::Pause => Phase::On { rep: 1 },
    }
}

} // verus!
