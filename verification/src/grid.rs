use vstd::prelude::*;

use std::collections::HashMap;

use crate::cell::Cell;
use crate::position::{lemma_pos_key_injective, pos_key, valid_position, Position};

verus! {

broadcast use vstd::std_specs::hash::group_hash_axioms;

/// The text a grid map holds at `p`: the stored text, or the empty text
/// where nothing is stored.
pub open spec fn grid_text(g: Map<Position, Seq<char>>, p: Position) -> Seq<char> {
    if g.contains_key(p) {
        g[p]
    } else {
        Seq::<char>::empty()
    }
}

/// A sparse two-dimensional store of [`Cell`]s, addressed by [`Position`].
///
/// Only cells that currently hold text are stored; every valid position
/// reads as a cell, an absent one as the empty cell. Its view is the map
/// from occupied positions to their text.
#[derive(Debug)]
pub struct Grid {
    cells: HashMap<u16, Cell>,
}

impl View for Grid {
    type V = Map<Position, Seq<char>>;

    closed spec fn view(&self) -> Map<Position, Seq<char>> {
        Map::new(
            |p: Position| valid_position(p) && self.cells@.contains_key(pos_key(p) as u16)
                && self.cells@[pos_key(p) as u16]@.len() > 0,
            |p: Position| self.cells@[pos_key(p) as u16]@,
        )
    }
}

impl Grid {
    #[verifier::type_invariant]
    spec fn wf(self) -> bool {
        forall|k: u16| #[trigger]
            self.cells@.contains_key(k) ==> k < 4096 && self.cells@[k]@.len() > 0
    }

    /// An empty grid.
    pub fn new() -> (r: Self)
        ensures
            r@ == Map::<Position, Seq<char>>::empty(),
    {
        let r = Grid { cells: HashMap::new() };
        proof {
            assert(r@ =~= Map::<Position, Seq<char>>::empty());
        }
        r
    }

    /// The cell at `position`: the stored one, or the empty cell where
    /// none is stored. It never fails.
    pub fn get(&self, position: Position) -> (r: Cell)
        ensures
            r@ == if self@.contains_key(position) {
                self@[position]
            } else {
                Seq::<char>::empty()
            },
    {
        proof {
            use_type_invariant(self);
        }
        let key = position.key();
        match self.cells.get(&key) {
            Some(cell) => cell.clone(),
            None => Cell::default(),
        }
    }

    /// Stores `cell` at `position`; an empty cell removes the entry
    /// instead, keeping the grid sparse.
    pub fn set(&mut self, position: Position, cell: Cell)
        ensures
            final(self)@ == if cell@.len() == 0 {
                old(self)@.remove(position)
            } else {
                old(self)@.insert(position, cell@)
            },
    {
        proof {
            use_type_invariant(&*self);
        }
        let key = position.key();
        let mut cells = HashMap::new();
        std::mem::swap(&mut self.cells, &mut cells);
        if cell.is_empty() {
            cells.remove(&key);
            proof {
                assert(forall|k: u16| #[trigger]
                    cells@.contains_key(k) ==> k < 4096 && cells@[k]@.len() > 0);
            }
            std::mem::swap(&mut self.cells, &mut cells);
            proof {
                assert forall|q: Position| #[trigger]
                    old(self)@.remove(position).contains_key(q) implies self@.contains_key(q)
                    && self@[q] == old(self)@.remove(position)[q] by {
                    if pos_key(q) == pos_key(position) {
                        lemma_pos_key_injective(q, position);
                    }
                }
                assert forall|q: Position| #[trigger] self@.contains_key(q) implies old(
                    self,
                )@.remove(position).contains_key(q) by {
                    if pos_key(q) == pos_key(position) {
                        lemma_pos_key_injective(q, position);
                    }
                }
                assert(self@ =~= old(self)@.remove(position));
            }
        } else {
            cells.insert(key, cell);
            proof {
                assert(forall|k: u16| #[trigger]
                    cells@.contains_key(k) ==> k < 4096 && cells@[k]@.len() > 0);
            }
            std::mem::swap(&mut self.cells, &mut cells);
            proof {
                assert forall|q: Position| #[trigger]
                    old(self)@.insert(position, cell@).contains_key(q) implies self@.contains_key(
                    q,
                ) && self@[q] == old(self)@.insert(position, cell@)[q] by {
                    if pos_key(q) == pos_key(position) {
                        lemma_pos_key_injective(q, position);
                    }
                }
                assert forall|q: Position| #[trigger] self@.contains_key(q) implies old(
                    self,
                )@.insert(position, cell@).contains_key(q) by {
                    if pos_key(q) == pos_key(position) {
                        lemma_pos_key_injective(q, position);
                    }
                }
                assert(self@ =~= old(self)@.insert(position, cell@));
            }
        }
    }
}

/// True of grid maps that keep the sparsity discipline: no stored text
/// is empty.
pub open spec fn grid_map_valid(g: Map<Position, Seq<char>>) -> bool {
    forall|p: Position| #[trigger] g.contains_key(p) ==> g[p].len() > 0
}

/// Every grid's view keeps the sparsity discipline, by construction: an
/// empty cell is never stored.
pub proof fn lemma_grid_view_valid(g: Grid)
    ensures
        grid_map_valid(g@),
{
}

impl Default for Grid {
    /// An empty grid.
    fn default() -> (r: Self)
        ensures
            r@ == Map::<Position, Seq<char>>::empty(),
    {
        Grid::new()
    }
}

} // verus!
