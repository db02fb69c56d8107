use vstd::prelude::*;

verus! {

/// The failures the library reports to its callers.
///
/// Every fallible operation of the library returns one of these variants;
/// the contract of each operation states exactly on which inputs it does.
#[derive(Clone, Copy, PartialEq, Eq, Structural, Debug)]
pub enum GralifferError {
    /// A numeric coordinate lies outside `0 ..= 63`.
    AxisOutOfBounds,
    /// A character is not part of the textual coordinate alphabet.
    InvalidAxisChar,
    /// A step or an arithmetic move would leave the grid.
    OutOfGrid,
    /// A cell would hold more than three grapheme clusters.
    CellTooLong,
    /// A cell's text does not name an opcode.
    NotAnOpcode,
    /// A cell's text is not an address or pointer form.
    InvalidOperandForm,
    /// A literal could not be read as an unsigned number.
    NotNumeric,
    /// A literal is neither `"0"` nor `"1"`.
    NotBool,
    /// An operand cannot be resolved to a grid address.
    NoAddress,
}

} // verus!
