use vstd::prelude::*;

use vstd::pervasive::unreached;

use crate::cell::Cell;
use crate::error::GralifferError;
use crate::grid::{grid_text, Grid};
use crate::position::{
    axis_char_of, is_axis_char, lemma_axis_numeric_round_trip, position_of_chars, Position,
};
use crate::text::{
    dec_rep, is_plain_text, lemma_dec_rep_shape, parse_u32, parse_u32_spec, push_char,
    u32_to_decimal,
};

verus! {

/// The mathematical shape of an operand: its text for a literal, the
/// referenced position for an address or a pointer.
pub ghost enum OperandModel {
    Literal(Seq<char>),
    Address(Position),
    Pointer(Position),
}

/// True of text in address form: `@XY` with `X` and `Y` in the coordinate
/// alphabet. Characters past the third are ignored.
pub open spec fn is_address_text(s: Seq<char>) -> bool {
    s.len() >= 3 && s[0] == '@' && is_axis_char(s[1]) && is_axis_char(s[2])
}

/// True of text in pointer form: `&XY` with `X` and `Y` in the coordinate
/// alphabet. Characters past the third are ignored.
pub open spec fn is_pointer_text(s: Seq<char>) -> bool {
    s.len() >= 3 && s[0] == '&' && is_axis_char(s[1]) && is_axis_char(s[2])
}

/// How a cell's text reads as an operand: an address or pointer where the
/// text has that form, otherwise a literal.
pub open spec fn operand_of_text(s: Seq<char>) -> OperandModel {
    if is_address_text(s) {
        OperandModel::Address(position_of_chars(s[1], s[2]))
    } else if is_pointer_text(s) {
        OperandModel::Pointer(position_of_chars(s[1], s[2]))
    } else {
        OperandModel::Literal(s)
    }
}

/// The canonical text of an operand: a literal's own text, `@XY` for an
/// address, `&XY` for a pointer.
pub open spec fn operand_text(o: OperandModel) -> Seq<char> {
    match o {
        OperandModel::Literal(s) => s,
        OperandModel::Address(p) => seq!['@', axis_char_of(p.x_spec()), axis_char_of(p.y_spec())],
        OperandModel::Pointer(p) => seq!['&', axis_char_of(p.x_spec()), axis_char_of(p.y_spec())],
    }
}

/// The number of pointer indirections followed before resolution stops:
/// a chain is chased through at most this many cells.
pub const MAX_POINTER_DEPTH: u32 = 3;

/// The cell text a pointer chain reaches from `pos` with `fuel` fetches
/// left: cells in pointer form are followed while fuel remains, and the
/// last fetched text is the result, whatever its form.
pub open spec fn chase(g: Map<Position, Seq<char>>, pos: Position, fuel: nat) -> Seq<char>
    decreases fuel,
{
    let content = grid_text(g, pos);
    if is_pointer_text(content) && fuel > 1 {
        chase(g, position_of_chars(content[1], content[2]), (fuel - 1) as nat)
    } else {
        content
    }
}

/// The literal text an operand resolves to on grid `g`: a literal's own
/// text; the referenced cell's text for an address; for a pointer, the
/// text its chain reaches, read once more through an address and left as
/// it stands when the chain is exhausted.
pub open spec fn resolved_literal(g: Map<Position, Seq<char>>, o: OperandModel) -> Seq<char> {
    match o {
        OperandModel::Literal(s) => s,
        OperandModel::Address(p) => grid_text(g, p),
        OperandModel::Pointer(p) => {
            let t = chase(g, p, MAX_POINTER_DEPTH as nat);
            match operand_of_text(t) {
                OperandModel::Literal(s) => s,
                OperandModel::Address(q) => grid_text(g, q),
                OperandModel::Pointer(q) => t,
            }
        },
    }
}

/// The position an operand resolves to on grid `g`, if any: none for a
/// literal, and for a pointer only when its chain reaches address text.
pub open spec fn resolved_address(g: Map<Position, Seq<char>>, o: OperandModel) -> Option<
    Position,
> {
    match o {
        OperandModel::Literal(s) => None,
        OperandModel::Address(p) => Some(p),
        OperandModel::Pointer(p) => {
            match operand_of_text(chase(g, p, MAX_POINTER_DEPTH as nat)) {
                OperandModel::Address(q) => Some(q),
                _ => None,
            }
        },
    }
}

/// True of text that reads as `"0"` or `"1"`, the strict booleans.
pub open spec fn bool_of_text(s: Seq<char>) -> Option<bool> {
    if s == seq!['0'] {
        Some(false)
    } else if s == seq!['1'] {
        Some(true)
    } else {
        None
    }
}

/// The text a numeric result is stored as: its decimal form, cut to the
/// three characters a cell can hold.
pub open spec fn num_text(n: int) -> Seq<char> {
    if dec_rep(n).len() <= 3 {
        dec_rep(n)
    } else {
        dec_rep(n).subrange(0, 3)
    }
}

/// Reads a prefixed operand form `<prefix>XY`: the position of the two
/// axis characters after the prefix.
fn parse_prefixed(cell: &Cell, prefix: char) -> (r: Result<Position, GralifferError>)
    ensures
        r matches Ok(p) ==> cell@.len() >= 3 && cell@[0] == prefix && is_axis_char(cell@[1])
            && is_axis_char(cell@[2]) && p == position_of_chars(cell@[1], cell@[2]),
        r matches Err(e) ==> {
            ||| (cell@.len() < 3 || cell@[0] != prefix) && e == GralifferError::InvalidOperandForm
            ||| cell@.len() >= 3 && cell@[0] == prefix && (!is_axis_char(cell@[1])
                || !is_axis_char(cell@[2])) && e == GralifferError::InvalidAxisChar
        },
{
    let content = cell.content();
    let s = content.as_str();
    let n = s.unicode_len();
    if n < 3 {
        return Err(GralifferError::InvalidOperandForm);
    }
    if s.get_char(0) != prefix {
        return Err(GralifferError::InvalidOperandForm);
    }
    Position::from_textual(s.get_char(1), s.get_char(2))
}

/// A piece of text with no inherent meaning, kept in a cell.
///
/// Operations read it in different ways: as text, as an unsigned number,
/// or as a boolean (`"0"` is false, `"1"` is true).
#[derive(Debug)]
pub struct Literal {
    value: Cell,
}

impl View for Literal {
    type V = Seq<char>;

    closed spec fn view(&self) -> Seq<char> {
        self.value@
    }
}

impl Literal {
    /// A literal holding the cell's text.
    pub fn new(value: Cell) -> (r: Self)
        ensures
            r@ == value@,
    {
        Literal { value }
    }

    /// A literal holding the cell's text.
    pub fn from_cell(cell: Cell) -> (r: Self)
        ensures
            r@ == cell@,
    {
        Self::new(cell)
    }

    /// The literal `"1"` for true, `"0"` for false.
    pub fn from_bool(value: bool) -> (r: Self)
        ensures
            r@ == if value {
                seq!['1']
            } else {
                seq!['0']
            },
    {
        let text = if value {
            "1"
        } else {
            "0"
        };
        proof {
            reveal_strlit("1");
            reveal_strlit("0");
            assert(is_plain_text(text@));
        }
        let r = Self::from_cell(Cell::new_trim(text));
        proof {
            if value {
                assert(r@ =~= seq!['1']);
            } else {
                assert(r@ =~= seq!['0']);
            }
        }
        r
    }

    /// The literal of a number's decimal text, cut to the three
    /// characters a cell can hold.
    pub fn from_number(value: u32) -> (r: Self)
        ensures
            r@ == num_text(value as int),
    {
        let text = u32_to_decimal(value);
        proof {
            lemma_dec_rep_shape(value as int);
        }
        Self::from_cell(Cell::new_trim(text.as_str()))
    }

    /// The literal's text as a cell.
    pub fn as_cell(&self) -> (r: Cell)
        ensures
            r@ == self@,
    {
        self.value.clone()
    }

    /// The strict boolean reading of the literal: `"0"` is false, `"1"`
    /// is true, and any other text fails.
    pub fn as_bool(&self) -> (r: Result<bool, GralifferError>)
        ensures
            r matches Ok(b) ==> bool_of_text(self@) == Some(b),
            r matches Err(e) ==> bool_of_text(self@) is None && e == GralifferError::NotBool,
    {
        let content = self.value.content();
        let s = content.as_str();
        if s.unicode_len() == 1 {
            let c = s.get_char(0);
            if c == '0' {
                proof {
                    assert(self@ =~= seq!['0']);
                }
                return Ok(false);
            }
            if c == '1' {
                proof {
                    assert(self@ =~= seq!['1']);
                }
                return Ok(true);
            }
        }
        Err(GralifferError::NotBool)
    }

    /// The lenient boolean reading of the literal: false only on exactly
    /// `"0"`, true on everything else.
    pub fn as_bool_with_default(&self) -> (r: bool)
        ensures
            r == (self@ != seq!['0']),
    {
        let content = self.value.content();
        let s = content.as_str();
        if s.unicode_len() == 1 {
            let c = s.get_char(0);
            if c == '0' {
                proof {
                    assert(self@ =~= seq!['0']);
                }
                return false;
            }
        }
        true
    }

    /// The numeric reading of the literal, as `u32` parsing accepts it.
    ///
    /// Fails exactly when the text is not such a number.
    pub fn as_numeric(&self) -> (r: Result<u32, GralifferError>)
        ensures
            r matches Ok(n) ==> parse_u32_spec(self@) == Some(n),
            r matches Err(e) ==> parse_u32_spec(self@) is None && e == GralifferError::NotNumeric,
    {
        let content = self.value.content();
        match parse_u32(content.as_str()) {
            Some(n) => Ok(n),
            None => Err(GralifferError::NotNumeric),
        }
    }

    /// The numeric reading of the literal, `0` where the text is not a
    /// number.
    pub fn as_numeric_with_default(&self) -> (r: u32)
        ensures
            r == (match parse_u32_spec(self@) {
                Some(n) => n,
                None => 0u32,
            }),
    {
        let content = self.value.content();
        match parse_u32(content.as_str()) {
            Some(n) => n,
            None => 0,
        }
    }
}

impl Clone for Literal {
    /// An identical literal.
    fn clone(&self) -> (r: Self)
        ensures
            r == *self,
    {
        Literal { value: self.value.clone() }
    }
}

impl PartialEq for Literal {
    fn eq(&self, other: &Self) -> (r: bool) {
        self.value == other.value
    }
}

impl vstd::std_specs::cmp::PartialEqSpecImpl for Literal {
    open spec fn obeys_eq_spec() -> bool {
        true
    }

    open spec fn eq_spec(&self, other: &Literal) -> bool {
        self@ == other@
    }
}

impl Eq for Literal {

}

/// A reference to a cell of the grid, written `@XY`.
///
/// Operations use it either to designate the cell itself (as `set` does)
/// or to fetch the cell's text as a literal, without further
/// interpretation.
#[derive(Clone, Copy, PartialEq, Eq, Structural, Debug)]
pub struct Address {
    /// The referenced position.
    pub position: Position,
}

impl Address {
    /// An address referencing `position`.
    pub fn from_position(position: &Position) -> (r: Self)
        ensures
            r.position == *position,
    {
        Address { position: *position }
    }

    /// An address read from a cell in the form `@XY`.
    ///
    /// Fails exactly when the text does not start with `@` followed by
    /// two characters, or those characters are outside the coordinate
    /// alphabet.
    pub fn from_cell(cell: &Cell) -> (r: Result<Self, GralifferError>)
        ensures
            r matches Ok(a) ==> is_address_text(cell@) && OperandModel::Address(a.position)
                == operand_of_text(cell@),
            r matches Err(e) ==> !is_address_text(cell@) && (e
                == GralifferError::InvalidOperandForm || e == GralifferError::InvalidAxisChar),
    {
        let position = parse_prefixed(cell, '@')?;
        Ok(Address { position })
    }

    /// The address's own text, `@XY`, as a cell.
    pub fn as_cell(&self) -> (r: Cell)
        ensures
            r@ == operand_text(OperandModel::Address(self.position)),
    {
        prefixed_cell('@', &self.position)
    }

    /// The address's own text, `@XY`, as a literal.
    pub fn as_literal(&self) -> (r: Literal)
        ensures
            r@ == operand_text(OperandModel::Address(self.position)),
    {
        Literal::from_cell(self.as_cell())
    }

    /// The operand read from the referenced cell's text.
    pub fn fetch_operand(&self, grid: &Grid) -> (r: Operand)
        ensures
            r@ == operand_of_text(grid_text(grid@, self.position)),
    {
        Operand::from_cell(grid.get(self.position))
    }

    /// The referenced cell's text as a literal, without further
    /// interpretation.
    pub fn fetch_literal(&self, grid: &Grid) -> (r: Literal)
        ensures
            r@ == grid_text(grid@, self.position),
    {
        Literal::from_cell(grid.get(self.position))
    }
}

/// The cell `<prefix>XY` of a position, for the `@` and `&` forms.
fn prefixed_cell(prefix: char, position: &Position) -> (r: Cell)
    requires
        prefix == '@' || prefix == '&',
    ensures
        r@ == seq![
            prefix,
            axis_char_of(position.x_spec()),
            axis_char_of(position.y_spec()),
        ],
{
    let (cx, cy) = position.as_textual();
    let mut text = String::new();
    push_char(&mut text, prefix);
    push_char(&mut text, cx);
    push_char(&mut text, cy);
    proof {
        let x = position.x_spec();
        let y = position.y_spec();
        lemma_axis_numeric_round_trip(x);
        lemma_axis_numeric_round_trip(y);
        assert(text@ =~= seq![prefix, axis_char_of(x), axis_char_of(y)]);
        assert(is_plain_text(text@));
    }
    match Cell::new(text.as_str()) {
        Ok(cell) => cell,
        Err(_) => unreached(),
    }
}

/// A reference to another cell's operand, written `&XY`: the referenced
/// cell is read and interpreted in turn, so pointers chain, up to
/// [`MAX_POINTER_DEPTH`] fetches.
#[derive(Clone, Copy, PartialEq, Eq, Structural, Debug)]
pub struct Pointer {
    position: Position,
}

impl Pointer {
    /// The referenced position.
    pub closed spec fn position_spec(self) -> Position {
        self.position
    }

    /// A pointer referencing `position`.
    pub fn from_position(position: &Position) -> (r: Self)
        ensures
            r.position_spec() == *position,
    {
        Pointer { position: *position }
    }

    /// A pointer read from a cell in the form `&XY`.
    ///
    /// Fails exactly when the text does not start with `&` followed by
    /// two characters, or those characters are outside the coordinate
    /// alphabet.
    pub fn from_cell(cell: &Cell) -> (r: Result<Self, GralifferError>)
        ensures
            r matches Ok(p) ==> is_pointer_text(cell@) && OperandModel::Pointer(p.position_spec())
                == operand_of_text(cell@),
            r matches Err(e) ==> !is_pointer_text(cell@) && (e
                == GralifferError::InvalidOperandForm || e == GralifferError::InvalidAxisChar),
    {
        let position = parse_prefixed(cell, '&')?;
        Ok(Pointer { position })
    }

    /// The last cell a chain of pointers reaches from this one, with at
    /// most [`MAX_POINTER_DEPTH`] fetches. A cell that is still in
    /// pointer form when the budget runs out is returned as it stands.
    fn resolve_recursively(&self, grid: &Grid) -> (r: Cell)
        ensures
            r@ == chase(grid@, self.position, MAX_POINTER_DEPTH as nat),
    {
        let mut pos = self.position;
        let mut fuel: u32 = MAX_POINTER_DEPTH;
        loop
            invariant
                1 <= fuel <= MAX_POINTER_DEPTH,
                chase(grid@, pos, fuel as nat) == chase(
                    grid@,
                    self.position,
                    MAX_POINTER_DEPTH as nat,
                ),
            decreases fuel,
        {
            let cell = grid.get(pos);
            if fuel > 1 {
                match Pointer::from_cell(&cell) {
                    Ok(next) => {
                        pos = next.position;
                        fuel = fuel - 1;
                    },
                    Err(_) => {
                        return cell;
                    },
                }
            } else {
                return cell;
            }
        }
    }

    /// The operand read from the last cell the chain reaches.
    pub fn resolve_to_operand(&self, grid: &Grid) -> (r: Operand)
        ensures
            r@ == operand_of_text(chase(grid@, self.position_spec(), MAX_POINTER_DEPTH as nat)),
    {
        Operand::from_cell(self.resolve_recursively(grid))
    }

    /// The literal the chain resolves to: the reached text, read once
    /// more through an address, or kept as it stands when the chain is
    /// exhausted.
    pub fn resolve_to_literal(&self, grid: &Grid) -> (r: Literal)
        ensures
            r@ == resolved_literal(grid@, OperandModel::Pointer(self.position_spec())),
    {
        let cell = self.resolve_recursively(grid);
        match Address::from_cell(&cell) {
            Ok(address) => address.fetch_literal(grid),
            Err(_) => Literal::from_cell(cell),
        }
    }

    /// The address the chain resolves to.
    ///
    /// Fails exactly when the reached text is not in address form.
    pub fn resolve_to_address(&self, grid: &Grid) -> (r: Result<Address, GralifferError>)
        ensures
            r matches Ok(a) ==> resolved_address(grid@, OperandModel::Pointer(self.position_spec()))
                == Some(a.position),
            r matches Err(e) ==> resolved_address(grid@, OperandModel::Pointer(self.position_spec()))
                is None && e == GralifferError::NoAddress,
    {
        let cell = self.resolve_recursively(grid);
        match Address::from_cell(&cell) {
            Ok(address) => Ok(address),
            Err(_) => Err(GralifferError::NoAddress),
        }
    }

    /// The pointer's own text, `&XY`, as a cell.
    pub fn as_cell(&self) -> (r: Cell)
        ensures
            r@ == operand_text(OperandModel::Pointer(self.position_spec())),
    {
        prefixed_cell('&', &self.position)
    }

    /// The pointer's own text, `&XY`, as a literal.
    pub fn as_literal(&self) -> (r: Literal)
        ensures
            r@ == operand_text(OperandModel::Pointer(self.position_spec())),
    {
        Literal::from_cell(self.as_cell())
    }
}

/// What an operation works on: a literal, an address, or a pointer.
#[derive(Debug)]
pub enum Operand {
    Literal(Literal),
    Address(Address),
    Pointer(Pointer),
}

impl View for Operand {
    type V = OperandModel;

    closed spec fn view(&self) -> OperandModel {
        match self {
            Operand::Literal(l) => OperandModel::Literal(l@),
            Operand::Address(a) => OperandModel::Address(a.position),
            Operand::Pointer(p) => OperandModel::Pointer(p.position),
        }
    }
}

impl Operand {
    /// The operand a cell's text reads as. Every cell reads as one:
    /// address and pointer forms as those, everything else as a literal.
    pub fn from_cell(cell: Cell) -> (r: Self)
        ensures
            r@ == operand_of_text(cell@),
    {
        match Address::from_cell(&cell) {
            Ok(address) => Operand::Address(address),
            Err(_) => match Pointer::from_cell(&cell) {
                Ok(pointer) => Operand::Pointer(pointer),
                Err(_) => Operand::Literal(Literal::from_cell(cell)),
            },
        }
    }

    /// The operand of a literal.
    pub fn from_literal(literal: Literal) -> (r: Self)
        ensures
            r@ == OperandModel::Literal(literal@),
    {
        Operand::Literal(literal)
    }

    /// The literal this operand resolves to on `grid`: itself for a
    /// literal, the referenced cell's text for an address, the chain's
    /// result for a pointer. It never fails.
    pub fn resolve_to_literal(&self, grid: &Grid) -> (r: Literal)
        ensures
            r@ == resolved_literal(grid@, self@),
    {
        match self {
            Operand::Literal(literal) => literal.clone(),
            Operand::Address(address) => address.fetch_literal(grid),
            Operand::Pointer(pointer) => pointer.resolve_to_literal(grid),
        }
    }

    /// The address this operand resolves to on `grid`.
    ///
    /// Fails exactly when the operand is a literal, or a pointer whose
    /// chain does not reach address text: a literal has no position.
    pub fn resolve_to_address(&self, grid: &Grid) -> (r: Result<Address, GralifferError>)
        ensures
            r matches Ok(a) ==> resolved_address(grid@, self@) == Some(a.position),
            r matches Err(e) ==> resolved_address(grid@, self@) is None && e
                == GralifferError::NoAddress,
    {
        match self {
            Operand::Literal(_) => Err(GralifferError::NoAddress),
            Operand::Address(address) => Ok(*address),
            Operand::Pointer(pointer) => pointer.resolve_to_address(grid),
        }
    }

    /// The operand's own text as a literal, without resolution.
    pub fn as_literal(&self) -> (r: Literal)
        ensures
            r@ == operand_text(self@),
    {
        match self {
            Operand::Literal(literal) => literal.clone(),
            Operand::Address(address) => address.as_literal(),
            Operand::Pointer(pointer) => pointer.as_literal(),
        }
    }

    /// The operand's own text as a cell, without resolution.
    pub fn as_cell(&self) -> (r: Cell)
        ensures
            r@ == operand_text(self@),
    {
        match self {
            Operand::Literal(literal) => literal.as_cell(),
            Operand::Address(address) => address.as_cell(),
            Operand::Pointer(pointer) => pointer.as_cell(),
        }
    }
}

impl Clone for Operand {
    /// An identical operand.
    fn clone(&self) -> (r: Self)
        ensures
            r == *self,
    {
        match self {
            Operand::Literal(literal) => Operand::Literal(literal.clone()),
            Operand::Address(address) => Operand::Address(*address),
            Operand::Pointer(pointer) => Operand::Pointer(*pointer),
        }
    }
}

impl PartialEq for Operand {
    fn eq(&self, other: &Self) -> (r: bool) {
        match (self, other) {
            (Operand::Literal(a), Operand::Literal(b)) => a == b,
            (Operand::Address(a), Operand::Address(b)) => a == b,
            (Operand::Pointer(a), Operand::Pointer(b)) => a == b,
            _ => false,
        }
    }
}

impl vstd::std_specs::cmp::PartialEqSpecImpl for Operand {
    open spec fn obeys_eq_spec() -> bool {
        true
    }

    open spec fn eq_spec(&self, other: &Operand) -> bool {
        self@ == other@
    }
}

impl Eq for Operand {

}

} // verus!
