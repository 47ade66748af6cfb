//! Core logic of a multi-board LED blinker.
//!
//! The crate separates the blink behaviour that is common to every supported
//! board from the board-specific hardware setup. It provides:
//!
//! - a polarity resolver that maps a logical on/off intent and a wiring
//!   convention (active-high or active-low) to an electrical level,
//! - a round-robin selector that cycles through a fixed set of secondary
//!   outputs,
//! - a blink-pattern sequencer that, one phase at a time, decides which
//!   outputs to drive and how long to wait before the next phase.
//!
//! The sequencer itself performs no waiting and touches no hardware: each
//! call to `Sequencer::step` returns a command (what to assert on the
//! outputs, and the delay that follows), and the surrounding program applies
//! the command to its pins and blocks for the returned duration. A small
//! model of a digital output line, `OutputLine`, records the electrical
//! level a command drives, so the whole on/off behaviour can be checked
//! without hardware.

pub mod board;
pub mod output;
pub mod pattern;
pub mod polarity;
pub mod round_robin;
pub mod sequencer;
