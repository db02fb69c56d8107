use vstd::prelude::*;

use vstd::pervasive::unreached;

use crate::cell::Cell;
use crate::opcode::{opcode_of_text, Opcode};
use crate::operand::{operand_of_text, Operand};

verus! {

/// The broadest element of the language: what a cell's text reads as.
///
/// Text that names an instruction is an [`Opcode`]; everything else is an
/// [`Operand`] — an address, a pointer, or a plain literal.
#[derive(Debug)]
pub enum Word {
    Opcode(Opcode),
    Operand(Operand),
}

impl Word {
    /// How a cell reads: as the opcode its text names, or else as an
    /// operand. Every cell reads as one of the two.
    pub fn from_cell(cell: Cell) -> (r: Word)
        ensures
            (match r {
                Word::Opcode(o) => opcode_of_text(cell@) == Some(o),
                Word::Operand(o) => opcode_of_text(cell@) is None && o@ == operand_of_text(cell@),
            }),
    {
        if Opcode::is_cell_valid(&cell) {
            match Opcode::from_cell(cell) {
                Ok(opcode) => Word::Opcode(opcode),
                Err(_) => unreached(),
            }
        } else {
            Word::Operand(Operand::from_cell(cell))
        }
    }
}

impl Clone for Word {
    /// An identical word.
    fn clone(&self) -> (r: Self)
        ensures
            r == *self,
    {
        match self {
            Word::Opcode(opcode) => Word::Opcode(*opcode),
            Word::Operand(operand) => Word::Operand(operand.clone()),
        }
    }
}

} // verus!
