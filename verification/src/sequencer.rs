//! The blink-pattern sequencer: the decision core of the blinker.
//!
//! The sequencer owns the pattern state (current phase and round-robin
//! cursor) and, one phase at a time, decides what to do: which logical
//! level to assert on the primary output, what to do with the secondary
//! outputs, and how long to wait before the next phase. It performs no
//! waiting itself; the surrounding program applies each command to its
//! pins and blocks for the returned duration, forever.

use vstd::prelude::*;
use crate::board::BoardProfile;
use crate::output::{driven, OutputLine};
use crate::pattern::{
    delay_of, next_phase, phase_at, phase_delay_ms, phase_wf, spec_next_phase, PatternShape, Phase,
};
use crate::round_robin::RoundRobinCursor;

verus! {

/// What one phase asks of the primary output: drive it logically on,
/// drive it logically off, or leave it at its current level (the pause
/// phase touches no output).
#[derive(Clone, Copy, PartialEq, Eq, Structural, Debug)]
pub enum PrimaryCommand {
    SetOn,
    SetOff,
    Leave,
}

/// What one phase asks of the secondary output set: nothing (either the
/// set is absent or the phase touches no secondary output), all members
/// driven logically on, or the one selected member driven logically off.
#[derive(Clone, Copy, PartialEq, Eq, Structural, Debug)]
pub enum SecondaryCommand {
    Leave,
    AllOn,
    OneOff { index: usize },
}

/// Everything one phase of the pattern asks of the caller: what to assert
/// on the outputs, then how many milliseconds to block before the next
/// phase.
#[derive(Clone, Copy, PartialEq, Eq, Structural, Debug)]
pub struct StepCommand {
    pub primary: PrimaryCommand,
    pub secondary: SecondaryCommand,
    pub delay_ms: u32,
}

/// The blink-pattern sequencer: the pattern it runs, the phase it is in,
/// the board's wiring convention, the size of the secondary output set
/// (0 when the set is absent), and the round-robin cursor over that set.
#[derive(Clone, Copy, PartialEq, Eq, Structural, Debug)]
pub struct Sequencer {
    pub shape: PatternShape,
    pub phase: Phase,
    pub active_low: bool,
    pub secondary_count: usize,
    pub cursor: RoundRobinCursor,
}

/// What the given phase asks of the primary output: on phases drive it
/// on, off phases drive it off, the pause leaves it alone.
pub open spec fn spec_primary_command(phase: Phase) -> PrimaryCommand {
    match phase {
        Phase::On { .. } => PrimaryCommand::SetOn,
        Phase::Off { .. } => PrimaryCommand::SetOff,
        Phase::Pause => PrimaryCommand::Leave,
    }
}

/// What the given phase asks of a secondary output set of `count`
/// members, with the round-robin counter at `counter`: on phases drive
/// all members on, off phases drive the selected member off, and when
/// the set is absent (`count == 0`) no phase touches it.
pub open spec fn spec_secondary_command(phase: Phase, count: usize, counter: u64) -> SecondaryCommand {
    match phase {
        Phase::On { .. } => if count == 0 {
            SecondaryCommand::Leave
        } else {
            SecondaryCommand::AllOn
        },
        Phase::Off { .. } => if count == 0 {
            SecondaryCommand::Leave
        } else {
            SecondaryCommand::OneOff { index: (counter as int % count as int) as usize }
        },
        Phase::Pause => SecondaryCommand::Leave,
    }
}

/// The round-robin counter after the given phase: it advances (wrapping
/// at the top of its range) exactly on an off phase with a secondary set
/// present, and is untouched otherwise.
pub open spec fn spec_cursor_after(phase: Phase, count: usize, counter: u64) -> u64 {
    if phase is Off && count > 0 {
        if counter == u64::MAX {
            0u64
        } else {
            (counter + 1) as u64
        }
    } else {
        counter
    }
}

/// The sequencer after one step: the phase advances along the pattern and
/// the cursor advances exactly when the phase consumed a round-robin
/// selection; the configuration never changes.
pub open spec fn spec_step_state(s: Sequencer) -> Sequencer {
    Sequencer {
        phase: spec_next_phase(s.shape, s.phase),
        cursor: RoundRobinCursor {
            counter: spec_cursor_after(s.phase, s.secondary_count, s.cursor.counter),
        },
        ..s
    }
}

/// The command one step issues from the given state: the output
/// assertions and the delay of the phase the sequencer is in.
pub open spec fn spec_step_cmd(s: Sequencer) -> StepCommand {
    StepCommand {
        primary: spec_primary_command(s.phase),
        secondary: spec_secondary_command(s.phase, s.secondary_count, s.cursor.counter),
        delay_ms: phase_delay_ms(s.shape, s.phase),
    }
}

/// The sequencer after `n` steps.
pub open spec fn spec_run(s: Sequencer, n: nat) -> Sequencer
    decreases n,
{
    if n == 0 {
        s
    } else {
        spec_step_state(spec_run(s, (n - 1) as nat))
    }
}

/// The command issued by step `n` (counting from 0).
pub open spec fn spec_cmd_at(s: Sequencer, n: nat) -> StepCommand {
    spec_step_cmd(spec_run(s, n))
}

impl Sequencer {
    /// The sequencer's phase is one its pattern can be in.
    pub open spec fn wf(self) -> bool {
        phase_wf(self.shape, self.phase)
    }

    /// A sequencer for the given board profile, at the start of the
    /// pattern, with a fresh round-robin cursor.
    pub fn new(profile: BoardProfile) -> (s: Sequencer)
        ensures
            s.shape == profile.shape,
            s.active_low == profile.active_low,
            s.secondary_count == profile.secondary_count,
            s.phase == (Phase::On { rep: 1u8 }),
            s.cursor.counter == 0,
            s.wf(),
    {
        Sequencer {
            shape: profile.shape,
            phase: Phase::On { rep: 1 },
            active_low: profile.active_low,
            secondary_count: profile.secondary_count,
            cursor: RoundRobinCursor::new(),
        }
    }

    /// Performs one step of the pattern: returns the command for the
    /// phase the sequencer was in and advances to the next phase. The
    /// round-robin cursor moves exactly when the command consumed a
    /// selection, so with no secondary output set the cursor is never
    /// touched and no secondary output is ever commanded.
    pub fn step(&mut self) -> (cmd: StepCommand)
        requires
            old(self).wf(),
        ensures
            final(self).wf(),
            *final(self) == spec_step_state(*old(self)),
            cmd == spec_step_cmd(*old(self)),
            old(self).secondary_count == 0 ==> final(self).cursor == old(self).cursor
                && cmd.secondary is Leave,
    {
        let delay_ms = delay_of(self.shape, self.phase);
        let cmd = match self.phase {
            Phase::On { .. } => StepCommand {
                primary: PrimaryCommand::SetOn,
                secondary: if self.secondary_count == 0 {
                    SecondaryCommand::Leave
                } else {
                    SecondaryCommand::AllOn
                },
                delay_ms,
            },
            Phase::Off { .. } => {
                let secondary = if self.secondary_count == 0 {
                    SecondaryCommand::Leave
                } else {
                    let index = self.cursor.advance_and_select(self.secondary_count);
                    SecondaryCommand::OneOff { index }
                };
                StepCommand { primary: PrimaryCommand::SetOff, secondary, delay_ms }
            },
            Phase::Pause => StepCommand {
                primary: PrimaryCommand::Leave,
                secondary: SecondaryCommand::Leave,
                delay_ms,
            },
        };
        self.phase = next_phase(self.shape, self.phase);
        cmd
    }
}

/// The primary output after the given command has been applied to it
/// under the given wiring convention.
pub open spec fn spec_apply_primary(cmd: PrimaryCommand, line: OutputLine, active_low: bool) -> OutputLine {
    match cmd {
        PrimaryCommand::SetOn => driven(line, true, active_low),
        PrimaryCommand::SetOff => driven(line, false, active_low),
        PrimaryCommand::Leave => line,
    }
}

/// The secondary output set after the given command has been applied to
/// it under the given wiring convention: untouched, every member driven
/// logically on, or the one selected member driven logically off with
/// the rest keeping their level.
pub open spec fn spec_apply_secondary(
    cmd: SecondaryCommand,
    lines: Seq<OutputLine>,
    active_low: bool,
) -> Seq<OutputLine> {
    match cmd {
        SecondaryCommand::Leave => lines,
        SecondaryCommand::AllOn => lines.map_values(
            |line: OutputLine| driven(line, true, active_low),
        ),
        SecondaryCommand::OneOff { index } => lines.update(
            index as int,
            driven(lines[index as int], false, active_low),
        ),
    }
}

/// Applies one step command to the outputs: drives the primary line as
/// the command asks and the secondary lines as the command asks, and
/// nothing else.
pub fn apply_command(
    cmd: &StepCommand,
    active_low: bool,
    primary: &mut OutputLine,
    secondary: &mut Vec<OutputLine>,
)
    requires
        cmd.secondary matches SecondaryCommand::OneOff { index } ==> index < old(secondary)@.len(),
    ensures
        *final(primary) == spec_apply_primary(cmd.primary, *old(primary), active_low),
        final(secondary)@ == spec_apply_secondary(cmd.secondary, old(secondary)@, active_low),
{
    match cmd.primary {
        PrimaryCommand::SetOn => primary.drive_logical(true, active_low),
        PrimaryCommand::SetOff => primary.drive_logical(false, active_low),
        PrimaryCommand::Leave => {},
    }
    match cmd.secondary {
        SecondaryCommand::Leave => {},
        SecondaryCommand::AllOn => {
            let ghost before = secondary@;
            let count = secondary.len();
            let mut j: usize = 0;
            while j < count
                invariant
                    count == secondary@.len(),
                    before.len() == count,
                    j <= count,
                    forall|k: int| 0 <= k < j
                        ==> secondary@[k] == driven(#[trigger] before[k], true, active_low),
                    forall|k: int| j <= k < count ==> #[trigger] secondary@[k] == before[k],
                decreases count - j,
            {
                secondary[j].drive_logical(true, active_low);
                j = j + 1;
            }
            proof {
                assert(secondary@ =~= before.map_values(
                    |line: OutputLine| driven(line, true, active_low),
                ));
            }
        },
        SecondaryCommand::OneOff { index } => {
            secondary[index].drive_logical(false, active_low);
        },
    }
}

impl Sequencer {
    /// Performs one step of the pattern directly on the given outputs:
    /// decides the phase's command, applies it, and returns how many
    /// milliseconds the caller must block before the next call.
    pub fn step_and_apply(
        &mut self,
        primary: &mut OutputLine,
        secondary: &mut Vec<OutputLine>,
    ) -> (delay_ms: u32)
        requires
            old(self).wf(),
            old(secondary)@.len() == old(self).secondary_count,
        ensures
            final(self).wf(),
            *final(self) == spec_step_state(*old(self)),
            delay_ms == spec_step_cmd(*old(self)).delay_ms,
            *final(primary) == spec_apply_primary(
                spec_step_cmd(*old(self)).primary,
                *old(primary),
                old(self).active_low,
            ),
            final(secondary)@ == spec_apply_secondary(
                spec_step_cmd(*old(self)).secondary,
                old(secondary)@,
                old(self).active_low,
            ),
            final(secondary)@.len() == old(secondary)@.len(),
    {
        let active_low = self.active_low;
        let cmd = self.step();
        apply_command(&cmd, active_low, primary, secondary);
        cmd.delay_ms
    }
}

/// After any number of steps the configuration (pattern, wiring,
/// secondary set size) is what it started as: stepping only ever moves
/// the phase and the cursor.
pub proof fn lemma_run_config(s: Sequencer, n: nat)
    ensures
        spec_run(s, n).shape == s.shape,
        spec_run(s, n).active_low == s.active_low,
        spec_run(s, n).secondary_count == s.secondary_count,
    decreases n,
{
    if n > 0 {
        lemma_run_config(s, (n - 1) as nat);
    }
}

/// A well-formed sequencer stays well formed, with its configuration
/// untouched, through any number of steps.
pub proof fn lemma_run_invariants(s: Sequencer, n: nat)
    requires
        s.wf(),
    ensures
        spec_run(s, n).shape == s.shape,
        spec_run(s, n).active_low == s.active_low,
        spec_run(s, n).secondary_count == s.secondary_count,
        spec_run(s, n).wf(),
    decreases n,
{
    lemma_run_config(s, n);
    if n > 0 {
        lemma_run_invariants(s, (n - 1) as nat);
    }
}

/// A sequencer started at the beginning of its pattern follows the
/// pattern exactly: after `n` steps it is in the pattern's `n`-th phase,
/// and step `n` issues that phase's delay and primary-output assertion.
pub proof fn lemma_run_follows_pattern(s: Sequencer, n: nat)
    requires
        s.wf(),
        s.phase == (Phase::On { rep: 1u8 }),
    ensures
        spec_run(s, n).phase == phase_at(s.shape, n),
        spec_cmd_at(s, n).delay_ms == phase_delay_ms(s.shape, phase_at(s.shape, n)),
        spec_cmd_at(s, n).primary == spec_primary_command(phase_at(s.shape, n)),
    decreases n,
{
    lemma_run_invariants(s, n);
    if n > 0 {
        lemma_run_follows_pattern(s, (n - 1) as nat);
        lemma_run_invariants(s, (n - 1) as nat);
    }
}

/// Number of off phases among the first `n` steps of the sequencer.
pub open spec fn off_steps(s: Sequencer, n: nat) -> nat
    decreases n,
{
    if n == 0 {
        0
    } else {
        off_steps(s, (n - 1) as nat) + if spec_run(s, (n - 1) as nat).phase is Off {
            1nat
        } else {
            0nat
        }
    }
}

/// With a secondary output set present, the round-robin cursor counts
/// exactly the off phases: as long as the count stays in the counter's
/// range, after `n` steps the counter has grown by the number of off
/// phases among them.
pub proof fn lemma_cursor_counts_off_phases(s: Sequencer, n: nat)
    requires
        s.secondary_count > 0,
        s.cursor.counter + off_steps(s, n) <= u64::MAX,
    ensures
        spec_run(s, n).cursor.counter == s.cursor.counter + off_steps(s, n),
    decreases n,
{
    if n > 0 {
        lemma_cursor_counts_off_phases(s, (n - 1) as nat);
        lemma_run_config(s, (n - 1) as nat);
    }
}

/// The secondary outputs are visited round-robin: the `k`-th off phase
/// (counting the off phases among the steps before it) turns off member
/// `(counter + k) mod count`, so successive off phases walk the set in
/// order, wrapping around.
pub proof fn lemma_round_robin_chase(s: Sequencer, n: nat)
    requires
        s.secondary_count > 0,
        s.cursor.counter + off_steps(s, n) <= u64::MAX,
        spec_run(s, n).phase is Off,
    ensures
        spec_cmd_at(s, n).secondary == (SecondaryCommand::OneOff {
            index: ((s.cursor.counter + off_steps(s, n)) % s.secondary_count as int) as usize,
        }),
{
    lemma_cursor_counts_off_phases(s, n);
    lemma_run_config(s, n);
}

/// With the secondary output set absent, no number of steps ever moves
/// the round-robin cursor and no step ever commands a secondary output.
pub proof fn lemma_secondary_skip(s: Sequencer, n: nat)
    requires
        s.secondary_count == 0,
    ensures
        spec_run(s, n).secondary_count == 0,
        spec_run(s, n).cursor == s.cursor,
        forall|k: nat| k < n ==> (#[trigger] spec_cmd_at(s, k)).secondary is Leave,
    decreases n,
{
    if n > 0 {
        lemma_secondary_skip(s, (n - 1) as nat);
        assert forall|k: nat| k < n implies (#[trigger] spec_cmd_at(s, k)).secondary is Leave by {
            if k == n - 1 {
                assert(spec_run(s, k).secondary_count == 0);
            }
        }
    }
}

} // verus!
