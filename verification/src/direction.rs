use vstd::prelude::*;

verus! {

/// A facing of the head: the four cardinal directions of the grid.
///
/// `Up` and `Down` move along the vertical axis (`y`), `Left` and `Right`
/// along the horizontal axis (`x`). The origin is the top-left corner, so
/// `Up` decrements `y` and `Down` increments it.
#[derive(Clone, Copy, PartialEq, Eq, Structural, Debug)]
pub enum Direction {
    Up,
    Right,
    Down,
    Left,
}

} // verus!
