use vstd::prelude::*;

use crate::direction::Direction;
use crate::operand::OperandModel;
use crate::position::Position;

verus! {

/// The mathematical state of a run: everything a [`crate::Frame`] holds.
///
/// The grid maps each occupied position to its text; the stack is the
/// sequence of operand models, oldest first; the console is the text
/// printed so far.
pub ghost struct FrameState {
    pub grid: Map<Position, Seq<char>>,
    pub head_pos: Position,
    pub head_dir: Direction,
    pub stack: Seq<OperandModel>,
    pub console: Seq<char>,
}

/// Observational equality of two states: grid, head and stack agree.
///
/// The console is left out: it is an append-only log, excluded from the
/// reversibility story.
pub open spec fn obs_eq(s1: FrameState, s2: FrameState) -> bool {
    s1.grid == s2.grid && s1.head_pos == s2.head_pos && s1.head_dir == s2.head_dir && s1.stack
        == s2.stack
}

} // verus!
