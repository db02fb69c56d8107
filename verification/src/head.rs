use vstd::prelude::*;

use crate::direction::Direction;
use crate::error::GralifferError;
use crate::position::{can_step_by, stepped_by, Position, PositionAxis};

verus! {

/// The execution cursor of a run: a grid position and a facing.
///
/// The head travels the grid reading cells; opcodes redirect or move it.
#[derive(Clone, Copy, Debug)]
pub struct Head {
    /// Where the head stands.
    pub position: Position,
    /// Where the head faces; the next step moves one cell that way.
    pub direction: Direction,
}

impl Head {
    /// A head at `position`, facing `direction`.
    pub fn new(position: Position, direction: Direction) -> (r: Self)
        ensures
            r.position == position,
            r.direction == direction,
    {
        Head { position, direction }
    }

    /// Moves the head to another position, keeping its facing.
    pub fn move_to(&mut self, position: Position)
        ensures
            final(self).position == position,
            final(self).direction == old(self).direction,
    {
        self.position = position;
    }

    /// Turns the head, keeping its position.
    pub fn direct_to(&mut self, direction: Direction)
        ensures
            final(self).direction == direction,
            final(self).position == old(self).position,
    {
        self.direction = direction;
    }

    /// Takes one step in the head's direction.
    ///
    /// Fails exactly when the step would leave the grid, and then moves
    /// nothing.
    pub fn step(&mut self) -> (r: Result<(), GralifferError>)
        ensures
            r matches Ok(u) ==> can_step_by(old(self).position, old(self).direction, 1)
                && final(self).position == stepped_by(old(self).position, old(self).direction, 1),
            r matches Err(e) ==> !can_step_by(old(self).position, old(self).direction, 1) && e
                == GralifferError::OutOfGrid && final(self).position == old(self).position,
            final(self).direction == old(self).direction,
    {
        match self.position.checked_step(self.direction, 1) {
            Ok(position) => {
                self.position = position;
                Ok(())
            },
            Err(e) => Err(e),
        }
    }
}

impl Default for Head {
    /// A head at the origin, facing right.
    fn default() -> (r: Self)
        ensures
            r.position.x_spec() == 0 && r.position.y_spec() == 0,
            r.direction == Direction::Right,
    {
        let origin = match Position::from_numeric(0, 0) {
            Ok(p) => p,
            Err(_) => vstd::pervasive::unreached(),
        };
        Head { position: origin, direction: Direction::Right }
    }
}

} // verus!
