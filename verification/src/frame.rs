use vstd::prelude::*;

use crate::cell::Cell;
use crate::console::Console;
use crate::direction::Direction;
use crate::grid::{grid_map_valid, grid_text, lemma_grid_view_valid, Grid};
use crate::head::Head;
use crate::history::{lemma_valid_from_concat, ra_valid, redo_run, valid_from, Artifact, ReciprocalAction};
use crate::opcode::{opcode_of_text, Opcode};
use crate::opcode::opcode_eval;
use crate::operand::{operand_of_text, Operand};
use crate::position::{can_step_by, stepped_by, Position};
use crate::stack::Stack;
use crate::state::{obs_eq, FrameState};
use crate::word::Word;

verus! {

/// The closed set of reversible primitive mutations of a [`Frame`].
///
/// Every change to a run's state flows through one of these, and each
/// application records its own inverse, so a host can undo and redo
/// anything uniformly.
#[derive(Debug)]
pub enum FrameAction {
    /// Stores a cell at a position; an empty cell clears the position.
    GridSet(Position, Cell),
    /// Pushes an operand on the stack.
    StackPush(Operand),
    /// Pops the top of the stack; a no-op on an empty stack.
    StackPop,
    /// Moves the head to a position, keeping its facing.
    HeadMoveTo(Position),
    /// Turns the head, keeping its position.
    HeadDirectTo(Direction),
    /// Moves the head one cell in its facing; a no-op at the border.
    HeadStep,
    /// Appends text to the console log.
    ConsolePrint(String),
}

/// The state transition one action performs. It is total: the actions
/// that can fail (a pop of an empty stack, a step off the grid) leave the
/// state unchanged instead.
pub open spec fn apply_action(a: FrameAction, s: FrameState) -> FrameState {
    match a {
        FrameAction::GridSet(p, c) => FrameState {
            grid: if c@.len() == 0 {
                s.grid.remove(p)
            } else {
                s.grid.insert(p, c@)
            },
            ..s
        },
        FrameAction::StackPush(o) => FrameState { stack: s.stack.push(o@), ..s },
        FrameAction::StackPop => if s.stack.len() > 0 {
            FrameState { stack: s.stack.drop_last(), ..s }
        } else {
            s
        },
        FrameAction::HeadMoveTo(p) => FrameState { head_pos: p, ..s },
        FrameAction::HeadDirectTo(d) => FrameState { head_dir: d, ..s },
        FrameAction::HeadStep => if can_step_by(s.head_pos, s.head_dir, 1) {
            FrameState { head_pos: stepped_by(s.head_pos, s.head_dir, 1), ..s }
        } else {
            s
        },
        FrameAction::ConsolePrint(t) => FrameState { console: s.console + t@, ..s },
    }
}

/// The transition of an optional action: nothing happens on `None`.
pub open spec fn apply_opt(a: Option<FrameAction>, s: FrameState) -> FrameState {
    match a {
        Some(action) => apply_action(action, s),
        None => s,
    }
}

/// True of the inverse that applying `a` in state `s` records: the undo
/// that restores `s` after `a` has run.
pub open spec fn undo_for(a: FrameAction, s: FrameState, u: Option<FrameAction>) -> bool {
    match a {
        FrameAction::GridSet(p, _) => u matches Some(FrameAction::GridSet(q, c)) && q == p && c@
            == grid_text(s.grid, p),
        FrameAction::StackPush(_) => u == Some(FrameAction::StackPop),
        FrameAction::StackPop => if s.stack.len() > 0 {
            u matches Some(FrameAction::StackPush(o)) && o@ == s.stack.last()
        } else {
            u is None
        },
        FrameAction::HeadMoveTo(_) => u matches Some(FrameAction::HeadMoveTo(q)) && q
            == s.head_pos,
        FrameAction::HeadDirectTo(_) => u matches Some(FrameAction::HeadDirectTo(d)) && d
            == s.head_dir,
        FrameAction::HeadStep => u matches Some(FrameAction::HeadMoveTo(q)) && q == s.head_pos,
        FrameAction::ConsolePrint(_) => u is None,
    }
}

/// An action followed by the inverse recorded for it restores the state,
/// up to the console. The grid must keep the sparsity discipline, as
/// every grid's view does.
pub proof fn lemma_undo_for_reverses(a: FrameAction, s: FrameState, u: Option<FrameAction>)
    requires
        grid_map_valid(s.grid),
        undo_for(a, s, u),
    ensures
        obs_eq(apply_opt(u, apply_action(a, s)), s),
{
    let s1 = apply_action(a, s);
    let s2 = apply_opt(u, s1);
    match a {
        FrameAction::GridSet(p, _) => {
            assert(s2.grid =~= s.grid);
        },
        FrameAction::StackPush(_) => {
            assert(s2.stack =~= s.stack);
        },
        FrameAction::StackPop => {
            if s.stack.len() > 0 {
                assert(s2.stack =~= s.stack);
            }
        },
        _ => {},
    }
}

/// Applying an action never stores empty text in the grid, so the
/// sparsity discipline survives every transition.
pub proof fn lemma_apply_keeps_grid_valid(a: FrameAction, s: FrameState)
    requires
        grid_map_valid(s.grid),
    ensures
        grid_map_valid(apply_action(a, s).grid),
{
    match a {
        FrameAction::GridSet(p, c) => {
            assert forall|q: Position| #[trigger]
                apply_action(a, s).grid.contains_key(q) implies apply_action(a, s).grid[q].len()
                > 0 by {
                if q != p {
                    assert(s.grid.contains_key(q));
                }
            }
        },
        _ => {},
    }
}

/// What one execution step does to the state: over an empty cell the
/// head steps once; a cell naming an opcode is evaluated; any other cell
/// is pushed on the stack as an operand and the head steps once.
pub open spec fn step_eval(s: FrameState) -> FrameState {
    let content = grid_text(s.grid, s.head_pos);
    if content.len() == 0 {
        apply_action(FrameAction::HeadStep, s)
    } else {
        match opcode_of_text(content) {
            Some(op) => opcode_eval(op, s),
            None => apply_action(
                FrameAction::HeadStep,
                FrameState { stack: s.stack.push(operand_of_text(content)), ..s },
            ),
        }
    }
}

/// A run: the grid, the head, the stack and the console, owned together.
///
/// The frame is the sole mutation boundary: every change to its parts
/// goes through [`Frame::act`] or [`Frame::step`], each of which returns
/// the [`Artifact`] that makes the change reversible.
#[derive(Debug)]
pub struct Frame {
    pub head: Head,
    pub grid: Grid,
    pub stack: Stack,
    pub console: Console,
}

impl View for Frame {
    type V = FrameState;

    open spec fn view(&self) -> FrameState {
        FrameState {
            grid: self.grid@,
            head_pos: self.head.position,
            head_dir: self.head.direction,
            stack: self.stack@,
            console: self.console.buffer@,
        }
    }
}

/// What a frame starts from: the grid, head and stack of a new run.
#[derive(Default)]
pub struct RunDescriptor {
    pub head: Head,
    pub grid: Grid,
    pub stack: Stack,
}

impl Frame {
    /// A frame starting from the given grid, head and stack, with an
    /// empty console.
    pub fn new(descriptor: RunDescriptor) -> (r: Self)
        ensures
            r@.grid == descriptor.grid@,
            r@.head_pos == descriptor.head.position,
            r@.head_dir == descriptor.head.direction,
            r@.stack == descriptor.stack@,
            r@.console == Seq::<char>::empty(),
    {
        Frame {
            head: descriptor.head,
            grid: descriptor.grid,
            stack: descriptor.stack,
            console: Console::new(),
        }
    }

    /// Applies one action to this frame and returns the artifact that
    /// records it together with its inverse.
    #[must_use]
    pub fn act(&mut self, action: FrameAction) -> (r: Artifact)
        ensures
            final(self)@ == apply_action(action, old(self)@),
            r@.len() == 1 && r@[0].redo == Some(action) && undo_for(action, old(self)@, r@[0].undo),
            ra_valid(r@[0], old(self)@),
            valid_from(r@, old(self)@),
            redo_run(r@, old(self)@) == final(self)@,
    {
        action.act(self)
    }

    /// Makes one step, the minimal unit of an execution: reads the cell
    /// under the head, classifies it, and either steps over emptiness,
    /// evaluates an opcode, or pushes an operand and steps. The returned
    /// artifact records every mutation performed, in order, with its
    /// inverse.
    pub fn step(&mut self) -> (r: Artifact)
        ensures
            final(self)@ == step_eval(old(self)@),
            valid_from(r@, old(self)@),
            redo_run(r@, old(self)@) == final(self)@,
    {
        let ghost s0 = self@;
        let current_cell = self.grid.get(self.head.position);
        if current_cell.is_empty() {
            self.act(FrameAction::HeadStep)
        } else {
            match Word::from_cell(current_cell) {
                Word::Opcode(opcode) => opcode.evaluate(self),
                Word::Operand(operand) => {
                    let mut artifact = self.act(FrameAction::StackPush(operand));
                    let step_artifact = self.act(FrameAction::HeadStep);
                    proof {
                        lemma_valid_from_concat(artifact@, step_artifact@, s0);
                    }
                    artifact.push(step_artifact);
                    artifact
                },
            }
        }
    }
}

impl FrameAction {
    /// Applies this action to `frame`: performs the mutation and returns
    /// the artifact pairing the action with the inverse that undoes it.
    ///
    /// The inverse restores the state up to the console, which is an
    /// append-only log.
    pub fn act(&self, frame: &mut Frame) -> (r: Artifact)
        ensures
            final(frame)@ == apply_action(*self, old(frame)@),
            r@.len() == 1 && r@[0].redo == Some(*self) && undo_for(
                *self,
                old(frame)@,
                r@[0].undo,
            ),
            ra_valid(r@[0], old(frame)@),
            valid_from(r@, old(frame)@),
            redo_run(r@, old(frame)@) == final(frame)@,
    {
        proof {
            lemma_grid_view_valid(frame.grid);
        }
        let r = match self {
            FrameAction::GridSet(position, cell) => {
                let previous_cell = frame.grid.get(*position);
                frame.grid.set(*position, cell.clone());
                Artifact::from_redo_undo(
                    self.clone(),
                    FrameAction::GridSet(*position, previous_cell),
                )
            },
            FrameAction::StackPush(operand) => {
                frame.stack.push(operand.clone());
                Artifact::from_redo_undo(self.clone(), FrameAction::StackPop)
            },
            FrameAction::StackPop => {
                match frame.stack.pop() {
                    Some(popped) => Artifact::from_redo_undo(
                        self.clone(),
                        FrameAction::StackPush(popped),
                    ),
                    None => Artifact::from_redo(self.clone()),
                }
            },
            FrameAction::HeadMoveTo(position) => {
                let old_position = frame.head.position;
                frame.head.move_to(*position);
                Artifact::from_redo_undo(self.clone(), FrameAction::HeadMoveTo(old_position))
            },
            FrameAction::HeadDirectTo(direction) => {
                let old_direction = frame.head.direction;
                frame.head.direct_to(*direction);
                Artifact::from_redo_undo(self.clone(), FrameAction::HeadDirectTo(old_direction))
            },
            FrameAction::HeadStep => {
                let old_position = frame.head.position;
                let _ = frame.head.step();
                Artifact::from_redo_undo(self.clone(), FrameAction::HeadMoveTo(old_position))
            },
            FrameAction::ConsolePrint(string) => {
                frame.console.print(string.as_str());
                Artifact::from_redo(self.clone())
            },
        };
        proof {
            lemma_undo_for_reverses(*self, old(frame)@, r@[0].undo);
            let s0 = old(frame)@;
            let rest = r@.drop_first();
            assert(rest.len() == 0);
            assert(redo_run(rest, apply_opt(r@[0].redo, s0)) == apply_opt(r@[0].redo, s0));
            assert(redo_run(r@, s0) == redo_run(rest, apply_opt(r@[0].redo, s0)));
            assert(valid_from(rest, apply_opt(r@[0].redo, s0)));
            assert(valid_from(r@, s0));
        }
        r
    }
}

impl Clone for FrameAction {
    /// An identical action.
    fn clone(&self) -> (r: Self)
        ensures
            r == *self,
    {
        match self {
            FrameAction::GridSet(position, cell) => FrameAction::GridSet(*position, cell.clone()),
            FrameAction::StackPush(operand) => FrameAction::StackPush(operand.clone()),
            FrameAction::StackPop => FrameAction::StackPop,
            FrameAction::HeadMoveTo(position) => FrameAction::HeadMoveTo(*position),
            FrameAction::HeadDirectTo(direction) => FrameAction::HeadDirectTo(*direction),
            FrameAction::HeadStep => FrameAction::HeadStep,
            FrameAction::ConsolePrint(string) => FrameAction::ConsolePrint(string.clone()),
        }
    }
}

} // verus!
