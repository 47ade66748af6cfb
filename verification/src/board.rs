//! Board profiles: the per-board data the sequencer is configured with.

use vstd::prelude::*;
use crate::pattern::PatternShape;

verus! {

/// The supported boards. Which one a program runs on is a build-time
/// choice; the boards differ only in wiring and in the outputs they
/// expose, never in the blink logic.
#[derive(Clone, Copy, PartialEq, Eq, Structural, Debug)]
pub enum Board {
    /// Single user LED wired active-low, no secondary outputs.
    BoardA,
    /// Single user LED wired active-low, no secondary outputs.
    BoardB,
    /// Single user LED wired active-high, no secondary outputs.
    BoardC,
    /// Active-low primary LED plus three secondary LEDs.
    BoardD,
}

/// Everything board-specific the sequencer needs: the wiring convention,
/// how many secondary outputs the board has (0 when it has none), and the
/// blink pattern it runs.
#[derive(Clone, Copy, PartialEq, Eq, Structural, Debug)]
pub struct BoardProfile {
    /// Whether "logically on" is electrically low on this board.
    pub active_low: bool,
    /// Size of the secondary output set; 0 when the set is absent.
    pub secondary_count: usize,
    /// Shape of the blink pattern the board runs.
    pub shape: PatternShape,
}

/// The profile of each supported board. Every board runs the three-blink
/// pattern; they differ in wiring and in the secondary outputs.
pub open spec fn spec_board_profile(board: Board) -> BoardProfile {
    match board {
        Board::BoardA => BoardProfile {
            active_low: true,
            secondary_count: 0,
            shape: PatternShape::ThreeBlink,
        },
        Board::BoardB => BoardProfile {
            active_low: true,
            secondary_count: 0,
            shape: PatternShape::ThreeBlink,
        },
        Board::BoardC => BoardProfile {
            active_low: false,
            secondary_count: 0,
            shape: PatternShape::ThreeBlink,
        },
        Board::BoardD => BoardProfile {
            active_low: true,
            secondary_count: 3,
            shape: PatternShape::ThreeBlink,
        },
    }
}

/// Returns the profile of the given board.
pub fn board_profile(board: Board) -> (profile: BoardProfile)
    ensures
        profile == spec_board_profile(board),
{
    match board {
        Board::BoardA => BoardProfile {
            active_low: true,
            secondary_count: 0,
            shape: PatternShape::ThreeBlink,
        },
        Board::BoardB => BoardProfile {
            active_low: true,
            secondary_count: 0,
            shape: PatternShape::ThreeBlink,
        },
        Board::BoardC => BoardProfile {
            active_low: false,
            secondary_count: 0,
            shape: PatternShape::ThreeBlink,
        },
        Board::BoardD => BoardProfile {
            active_low: true,
            secondary_count: 3,
            shape: PatternShape::ThreeBlink,
        },
    }
}

} // verus!
