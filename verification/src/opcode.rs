use vstd::prelude::*;

use crate::cell::Cell;
use crate::direction::Direction;
use crate::error::GralifferError;
use crate::frame::{apply_action, Frame, FrameAction};
use crate::history::{lemma_valid_from_concat, redo_run, valid_from, Artifact};
use crate::operand::{
    bool_of_text, num_text, operand_text, resolved_address, resolved_literal, Address, Literal,
    Operand, OperandModel,
};
use crate::position::Position;
use crate::state::FrameState;
use crate::text::parse_u32_spec;

verus! {

/// The closed set of the language's instructions, each named by exactly
/// three lower-case letters of cell text.
#[derive(Clone, Copy, PartialEq, Eq, Structural, Debug)]
pub enum Opcode {
    /// Diagnostic dump; mutates nothing.
    Dbg,
    /// Terminates the run: the head stays put and no further step makes
    /// progress.
    Hlt,
    /// Does nothing.
    Nop,
    /// Faces the head up.
    Gou,
    /// Faces the head right.
    Gor,
    /// Faces the head down.
    God,
    /// Faces the head left.
    Gol,
    /// Moves the head to an address popped from the stack.
    Jmp,
    /// Faces the head up when a popped strict boolean is true.
    Igu,
    /// Faces the head right when a popped strict boolean is true.
    Igr,
    /// Faces the head down when a popped strict boolean is true.
    Igd,
    /// Faces the head left when a popped strict boolean is true.
    Igl,
    /// Moves the head to a popped address when a popped boolean allows.
    Ijp,
    /// Pushes the sum of two popped numbers, saturating.
    Add,
    /// Pushes the difference of two popped numbers, saturating.
    Sub,
    /// Pushes the product of two popped numbers, saturating.
    Mul,
    /// Pushes the quotient of two popped numbers, `0` for division by
    /// zero.
    Div,
    /// Pushes whether two popped literals are equal.
    Equ,
    /// Pushes whether two popped literals differ.
    Neq,
    /// Pushes whether the first popped number is exceeded by the second.
    Grt,
    /// Pushes whether the second popped number is below the first.
    Lst,
    /// Pushes whether the second popped number is at least the first.
    Grq,
    /// Pushes whether the second popped number is at most the first.
    Lsq,
    /// Writes a popped literal into the grid at a popped address (the
    /// opcode `set`).
    SetCell,
    /// Appends a popped operand's own text to the console.
    Prt,
}

/// The opcode three characters of text name, if any.
pub open spec fn opcode_of_chars(a: char, b: char, c: char) -> Option<Opcode> {
    if (a, b, c) == ('d', 'b', 'g') {
        Some(Opcode::Dbg)
    } else if (a, b, c) == ('h', 'l', 't') {
        Some(Opcode::Hlt)
    } else if (a, b, c) == ('n', 'o', 'p') {
        Some(Opcode::Nop)
    } else if (a, b, c) == ('g', 'o', 'u') {
        Some(Opcode::Gou)
    } else if (a, b, c) == ('g', 'o', 'r') {
        Some(Opcode::Gor)
    } else if (a, b, c) == ('g', 'o', 'd') {
        Some(Opcode::God)
    } else if (a, b, c) == ('g', 'o', 'l') {
        Some(Opcode::Gol)
    } else if (a, b, c) == ('j', 'm', 'p') {
        Some(Opcode::Jmp)
    } else if (a, b, c) == ('i', 'g', 'u') {
        Some(Opcode::Igu)
    } else if (a, b, c) == ('i', 'g', 'r') {
        Some(Opcode::Igr)
    } else if (a, b, c) == ('i', 'g', 'd') {
        Some(Opcode::Igd)
    } else if (a, b, c) == ('i', 'g', 'l') {
        Some(Opcode::Igl)
    } else if (a, b, c) == ('i', 'j', 'p') {
        Some(Opcode::Ijp)
    } else if (a, b, c) == ('a', 'd', 'd') {
        Some(Opcode::Add)
    } else if (a, b, c) == ('s', 'u', 'b') {
        Some(Opcode::Sub)
    } else if (a, b, c) == ('m', 'u', 'l') {
        Some(Opcode::Mul)
    } else if (a, b, c) == ('d', 'i', 'v') {
        Some(Opcode::Div)
    } else if (a, b, c) == ('e', 'q', 'u') {
        Some(Opcode::Equ)
    } else if (a, b, c) == ('n', 'e', 'q') {
        Some(Opcode::Neq)
    } else if (a, b, c) == ('g', 'r', 't') {
        Some(Opcode::Grt)
    } else if (a, b, c) == ('l', 's', 't') {
        Some(Opcode::Lst)
    } else if (a, b, c) == ('g', 'r', 'q') {
        Some(Opcode::Grq)
    } else if (a, b, c) == ('l', 's', 'q') {
        Some(Opcode::Lsq)
    } else if (a, b, c) == ('s', 'e', 't') {
        Some(Opcode::SetCell)
    } else if (a, b, c) == ('p', 'r', 't') {
        Some(Opcode::Prt)
    } else {
        None
    }
}

/// The opcode a cell's text names: exactly three characters, matching an
/// opcode name letter for letter.
pub open spec fn opcode_of_text(s: Seq<char>) -> Option<Opcode> {
    if s.len() == 3 {
        opcode_of_chars(s[0], s[1], s[2])
    } else {
        None
    }
}

impl Opcode {
    /// The opcode a cell names.
    ///
    /// Fails exactly when the cell's text is no opcode name.
    pub fn from_cell(cell: Cell) -> (r: Result<Opcode, GralifferError>)
        ensures
            r matches Ok(o) ==> opcode_of_text(cell@) == Some(o),
            r matches Err(e) ==> opcode_of_text(cell@) is None && e == GralifferError::NotAnOpcode,
    {
        let content = cell.content();
        let s = content.as_str();
        if s.unicode_len() != 3 {
            return Err(GralifferError::NotAnOpcode);
        }
        let r = match (s.get_char(0), s.get_char(1), s.get_char(2)) {
            ('d', 'b', 'g') => Ok(Opcode::Dbg),
            ('h', 'l', 't') => Ok(Opcode::Hlt),
            ('n', 'o', 'p') => Ok(Opcode::Nop),
            ('g', 'o', 'u') => Ok(Opcode::Gou),
            ('g', 'o', 'r') => Ok(Opcode::Gor),
            ('g', 'o', 'd') => Ok(Opcode::God),
            ('g', 'o', 'l') => Ok(Opcode::Gol),
            ('j', 'm', 'p') => Ok(Opcode::Jmp),
            ('i', 'g', 'u') => Ok(Opcode::Igu),
            ('i', 'g', 'r') => Ok(Opcode::Igr),
            ('i', 'g', 'd') => Ok(Opcode::Igd),
            ('i', 'g', 'l') => Ok(Opcode::Igl),
            ('i', 'j', 'p') => Ok(Opcode::Ijp),
            ('a', 'd', 'd') => Ok(Opcode::Add),
            ('s', 'u', 'b') => Ok(Opcode::Sub),
            ('m', 'u', 'l') => Ok(Opcode::Mul),
            ('d', 'i', 'v') => Ok(Opcode::Div),
            ('e', 'q', 'u') => Ok(Opcode::Equ),
            ('n', 'e', 'q') => Ok(Opcode::Neq),
            ('g', 'r', 't') => Ok(Opcode::Grt),
            ('l', 's', 't') => Ok(Opcode::Lst),
            ('g', 'r', 'q') => Ok(Opcode::Grq),
            ('l', 's', 'q') => Ok(Opcode::Lsq),
            ('s', 'e', 't') => Ok(Opcode::SetCell),
            ('p', 'r', 't') => Ok(Opcode::Prt),
            _ => Err(GralifferError::NotAnOpcode),
        };
        r
    }

    /// True if the cell's text names an opcode.
    pub fn is_cell_valid(cell: &Cell) -> (r: bool)
        ensures
            r == (opcode_of_text(cell@) is Some),
    {
        match Opcode::from_cell(cell.clone()) {
            Ok(_) => true,
            Err(_) => false,
        }
    }
}


/// Popping the top operand: the operand and the state after the pop, or
/// no operand and the unchanged state when the stack is empty.
pub open spec fn spec_pop(s: FrameState) -> (Option<OperandModel>, FrameState) {
    if s.stack.len() > 0 {
        (Some(s.stack.last()), FrameState { stack: s.stack.drop_last(), ..s })
    } else {
        (None, s)
    }
}

/// Popping an operand and resolving it to its literal text.
pub open spec fn spec_pop_literal(s: FrameState) -> (Option<Seq<char>>, FrameState) {
    let (o, s1) = spec_pop(s);
    (
        match o {
            Some(om) => Some(resolved_literal(s.grid, om)),
            None => None,
        },
        s1,
    )
}

/// Popping an operand and resolving it to an address, where it has one.
pub open spec fn spec_pop_address(s: FrameState) -> (Option<Position>, FrameState) {
    let (o, s1) = spec_pop(s);
    (
        match o {
            Some(om) => resolved_address(s.grid, om),
            None => None,
        },
        s1,
    )
}

/// Popping a number: `0` for a missing operand or unreadable text.
pub open spec fn spec_pop_numeric_default(s: FrameState) -> (u32, FrameState) {
    let (l, s1) = spec_pop_literal(s);
    (
        match l {
            Some(t) => match parse_u32_spec(t) {
                Some(n) => n,
                None => 0u32,
            },
            None => 0u32,
        },
        s1,
    )
}

/// Popping a strict boolean: only `"0"` and `"1"` count.
pub open spec fn spec_pop_bool_strict(s: FrameState) -> (Option<bool>, FrameState) {
    let (l, s1) = spec_pop_literal(s);
    (
        match l {
            Some(t) => bool_of_text(t),
            None => None,
        },
        s1,
    )
}

/// Popping a lenient boolean: false only on exactly `"0"`, true on any
/// other text and on a missing operand.
pub open spec fn spec_pop_bool_default(s: FrameState) -> (bool, FrameState) {
    let (l, s1) = spec_pop_literal(s);
    (
        match l {
            Some(t) => t != seq!['0'],
            None => true,
        },
        s1,
    )
}

/// The state with the head stepped once, where the grid allows.
pub open spec fn with_step(s: FrameState) -> FrameState {
    apply_action(FrameAction::HeadStep, s)
}

/// The state with the head turned.
pub open spec fn with_dir(s: FrameState, d: Direction) -> FrameState {
    FrameState { head_dir: d, ..s }
}

/// The state with the head moved.
pub open spec fn with_pos(s: FrameState, p: Position) -> FrameState {
    FrameState { head_pos: p, ..s }
}

/// The state with a literal pushed on the stack.
pub open spec fn with_push(s: FrameState, t: Seq<char>) -> FrameState {
    FrameState { stack: s.stack.push(OperandModel::Literal(t)), ..s }
}

/// The state with text stored at a position, empty text clearing it.
pub open spec fn with_grid_set(s: FrameState, p: Position, t: Seq<char>) -> FrameState {
    FrameState {
        grid: if t.len() == 0 {
            s.grid.remove(p)
        } else {
            s.grid.insert(p, t)
        },
        ..s
    }
}

/// The state with text appended to the console.
pub open spec fn with_print(s: FrameState, t: Seq<char>) -> FrameState {
    FrameState { console: s.console + t, ..s }
}

/// The text of a boolean result: `"1"` or `"0"`.
pub open spec fn bool_text(b: bool) -> Seq<char> {
    if b {
        seq!['1']
    } else {
        seq!['0']
    }
}

/// The arithmetic an opcode performs, on the values the operands read
/// as: saturating sum, difference and product, quotient with `0` for a
/// division by zero.
pub open spec fn arith_result(op: Opcode, lhs: u32, rhs: u32) -> u32 {
    match op {
        Opcode::Add => if lhs + rhs <= u32::MAX {
            (lhs + rhs) as u32
        } else {
            u32::MAX
        },
        Opcode::Sub => if lhs >= rhs {
            (lhs - rhs) as u32
        } else {
            0u32
        },
        Opcode::Mul => if lhs * rhs <= u32::MAX {
            (lhs * rhs) as u32
        } else {
            u32::MAX
        },
        Opcode::Div => if rhs == 0 {
            0u32
        } else {
            lhs / rhs
        },
        _ => 0u32,
    }
}

/// The comparison an opcode performs, with the second popped value on
/// the left.
pub open spec fn cmp_result(op: Opcode, lhs: u32, rhs: u32) -> bool {
    match op {
        Opcode::Grt => lhs > rhs,
        Opcode::Lst => lhs < rhs,
        Opcode::Grq => lhs >= rhs,
        Opcode::Lsq => lhs <= rhs,
        _ => false,
    }
}

/// What evaluating an opcode does to the state, before the implicit
/// trailing head step of [`opcode_eval`].
pub open spec fn opcode_body_eval(op: Opcode, s: FrameState) -> FrameState {
    match op {
        Opcode::Nop => s,
        Opcode::Dbg => s,
        Opcode::Hlt => s,
        Opcode::Gou => with_dir(s, Direction::Up),
        Opcode::Gor => with_dir(s, Direction::Right),
        Opcode::God => with_dir(s, Direction::Down),
        Opcode::Gol => with_dir(s, Direction::Left),
        Opcode::Jmp => {
            let (a, s1) = spec_pop_address(s);
            match a {
                Some(p) => with_pos(s1, p),
                None => s1,
            }
        },
        Opcode::Igu | Opcode::Igr | Opcode::Igd | Opcode::Igl => {
            let (b, s1) = spec_pop_bool_strict(s);
            if b == Some(true) {
                with_dir(
                    s1,
                    match op {
                        Opcode::Igu => Direction::Up,
                        Opcode::Igr => Direction::Right,
                        Opcode::Igd => Direction::Down,
                        _ => Direction::Left,
                    },
                )
            } else {
                s1
            }
        },
        Opcode::Ijp => {
            let (b, s1) = spec_pop_bool_default(s);
            let (a, s2) = spec_pop_address(s1);
            match a {
                Some(p) => if b {
                    with_pos(s2, p)
                } else {
                    s2
                },
                None => s2,
            }
        },
        Opcode::Add | Opcode::Sub | Opcode::Mul | Opcode::Div => {
            let (rhs, s1) = spec_pop_numeric_default(s);
            let (lhs, s2) = spec_pop_numeric_default(s1);
            with_push(s2, num_text(arith_result(op, lhs, rhs) as int))
        },
        Opcode::Equ | Opcode::Neq => {
            let (rhs, s1) = spec_pop_literal(s);
            let (lhs, s2) = spec_pop_literal(s1);
            let equal = match (lhs, rhs) {
                (Some(l), Some(r)) => if op == Opcode::Equ {
                    l == r
                } else {
                    l != r
                },
                _ => false,
            };
            with_push(s2, bool_text(equal))
        },
        Opcode::Grt | Opcode::Lst | Opcode::Grq | Opcode::Lsq => {
            let (rhs, s1) = spec_pop_numeric_default(s);
            let (lhs, s2) = spec_pop_numeric_default(s1);
            with_push(s2, bool_text(cmp_result(op, lhs, rhs)))
        },
        Opcode::SetCell => {
            let (a, s1) = spec_pop_address(s);
            let (l, s2) = spec_pop_literal(s1);
            match (a, l) {
                (Some(p), Some(t)) => with_grid_set(s2, p, t),
                _ => s2,
            }
        },
        Opcode::Prt => {
            let (o, s1) = spec_pop(s);
            match o {
                Some(om) => with_print(s1, operand_text(om)),
                None => s1,
            }
        },
    }
}

/// True of the opcodes that control the head themselves, so no implicit
/// step follows them: the jumps, and the halt that parks the head.
pub open spec fn skips_trailing_step(op: Opcode) -> bool {
    op == Opcode::Jmp || op == Opcode::Hlt || op == Opcode::Ijp
}

/// What evaluating an opcode does to the state: its own effect, followed
/// by one implicit head step unless the opcode controls the head itself.
pub open spec fn opcode_eval(op: Opcode, s: FrameState) -> FrameState {
    if skips_trailing_step(op) {
        opcode_body_eval(op, s)
    } else {
        with_step(opcode_body_eval(op, s))
    }
}

/// Pops the top operand of `frame`'s stack: the operand and the artifact
/// of the pop, or nothing and an empty artifact on an empty stack.
fn pop_operand(frame: &mut Frame) -> (r: (Option<Operand>, Artifact))
    ensures
        final(frame)@ == spec_pop(old(frame)@).1,
        (match r.0 {
            Some(o) => spec_pop(old(frame)@).0 == Some(o@),
            None => spec_pop(old(frame)@).0 is None,
        }),
        valid_from(r.1@, old(frame)@),
        redo_run(r.1@, old(frame)@) == final(frame)@,
{
    let top = match frame.stack.get_last() {
        Some(operand) => Some(operand.clone()),
        None => None,
    };
    match top {
        Some(operand) => {
            let artifact = frame.act(FrameAction::StackPop);
            (Some(operand), artifact)
        },
        None => (None, Artifact::empty()),
    }
}

/// Pops an operand and resolves it to a literal against `frame`'s grid.
fn pop_literal(frame: &mut Frame) -> (r: (Option<Literal>, Artifact))
    ensures
        final(frame)@ == spec_pop_literal(old(frame)@).1,
        (match r.0 {
            Some(l) => spec_pop_literal(old(frame)@).0 == Some(l@),
            None => spec_pop_literal(old(frame)@).0 is None,
        }),
        valid_from(r.1@, old(frame)@),
        redo_run(r.1@, old(frame)@) == final(frame)@,
{
    let (operand, artifact) = pop_operand(frame);
    match operand {
        Some(operand) => (Some(operand.resolve_to_literal(&frame.grid)), artifact),
        None => (None, artifact),
    }
}

/// Pops an operand and resolves it to an address against `frame`'s grid.
fn pop_address(frame: &mut Frame) -> (r: (Option<Address>, Artifact))
    ensures
        final(frame)@ == spec_pop_address(old(frame)@).1,
        (match r.0 {
            Some(a) => spec_pop_address(old(frame)@).0 == Some(a.position),
            None => spec_pop_address(old(frame)@).0 is None,
        }),
        valid_from(r.1@, old(frame)@),
        redo_run(r.1@, old(frame)@) == final(frame)@,
{
    let (operand, artifact) = pop_operand(frame);
    match operand {
        Some(operand) => match operand.resolve_to_address(&frame.grid) {
            Ok(address) => (Some(address), artifact),
            Err(_) => (None, artifact),
        },
        None => (None, artifact),
    }
}

/// Pops a number, `0` for a missing operand or unreadable text.
fn pop_as_numeric_with_default(frame: &mut Frame) -> (r: (u32, Artifact))
    ensures
        final(frame)@ == spec_pop_numeric_default(old(frame)@).1,
        r.0 == spec_pop_numeric_default(old(frame)@).0,
        valid_from(r.1@, old(frame)@),
        redo_run(r.1@, old(frame)@) == final(frame)@,
{
    let (literal, artifact) = pop_literal(frame);
    match literal {
        Some(literal) => (literal.as_numeric_with_default(), artifact),
        None => (0, artifact),
    }
}

/// Pops a strict boolean: nothing unless the text is `"0"` or `"1"`.
fn pop_as_bool(frame: &mut Frame) -> (r: (Option<bool>, Artifact))
    ensures
        final(frame)@ == spec_pop_bool_strict(old(frame)@).1,
        r.0 == spec_pop_bool_strict(old(frame)@).0,
        valid_from(r.1@, old(frame)@),
        redo_run(r.1@, old(frame)@) == final(frame)@,
{
    let (literal, artifact) = pop_literal(frame);
    match literal {
        Some(literal) => match literal.as_bool() {
            Ok(b) => (Some(b), artifact),
            Err(_) => (None, artifact),
        },
        None => (None, artifact),
    }
}

/// Pops a lenient boolean: false only on exactly `"0"`, true otherwise,
/// true too on an empty stack.
fn pop_as_bool_with_default(frame: &mut Frame) -> (r: (bool, Artifact))
    ensures
        final(frame)@ == spec_pop_bool_default(old(frame)@).1,
        r.0 == spec_pop_bool_default(old(frame)@).0,
        valid_from(r.1@, old(frame)@),
        redo_run(r.1@, old(frame)@) == final(frame)@,
{
    let (literal, artifact) = pop_literal(frame);
    match literal {
        Some(literal) => (literal.as_bool_with_default(), artifact),
        None => (true, artifact),
    }
}


/// The saturating product of two numbers.
fn mul_saturating(lhs: u32, rhs: u32) -> (r: u32)
    ensures
        r == (if lhs * rhs <= u32::MAX {
            (lhs * rhs) as u32
        } else {
            u32::MAX
        }),
{
    if rhs == 0 {
        proof {
            assert(lhs * rhs == 0) by (nonlinear_arith)
                requires
                    rhs == 0,
            ;
        }
        0
    } else {
        let q = u32::MAX / rhs;
        proof {
            vstd::arithmetic::div_mod::lemma_fundamental_div_mod(u32::MAX as int, rhs as int);
        }
        if lhs <= q {
            proof {
                assert(lhs * rhs <= q * rhs) by (nonlinear_arith)
                    requires
                        lhs <= q,
                        rhs >= 0,
                ;
            }
            lhs * rhs
        } else {
            proof {
                assert(lhs * rhs >= (q + 1) * rhs) by (nonlinear_arith)
                    requires
                        lhs >= q + 1,
                        rhs >= 0,
                ;
                assert((q + 1) * rhs == q * rhs + rhs) by (nonlinear_arith);
            }
            u32::MAX
        }
    }
}

impl Opcode {
    /// Evaluates this opcode against `frame`: pops and resolves its
    /// operands, performs its effect, and takes the implicit trailing
    /// head step unless the opcode controls the head itself. The
    /// returned artifact records every mutation, in order, with its
    /// inverse.
    ///
    /// Missing operands follow the per-opcode default policy: arithmetic
    /// and comparison default to `0`, the conditional turns skip their
    /// effect, a conditional jump's condition defaults to true. `hlt`
    /// mutates nothing and takes no step, so the head parks on it and
    /// the run makes no further progress.
    pub fn evaluate(self, frame: &mut Frame) -> (r: Artifact)
        ensures
            final(frame)@ == opcode_eval(self, old(frame)@),
            valid_from(r@, old(frame)@),
            redo_run(r@, old(frame)@) == final(frame)@,
    {
        let ghost s0 = frame@;
        let mut artifact = match self {
            Opcode::Nop => Artifact::empty(),
            Opcode::Hlt => Artifact::empty(),
            Opcode::Dbg => Artifact::empty(),
            Opcode::Gou | Opcode::Gor | Opcode::God | Opcode::Gol => {
                let direction = match self {
                    Opcode::Gou => Direction::Up,
                    Opcode::Gor => Direction::Right,
                    Opcode::God => Direction::Down,
                    _ => Direction::Left,
                };
                frame.act(FrameAction::HeadDirectTo(direction))
            },
            Opcode::Jmp => {
                let (address, mut artifact) = pop_address(frame);
                match address {
                    Some(address) => {
                        let moved = frame.act(FrameAction::HeadMoveTo(address.position));
                        proof {
                            lemma_valid_from_concat(artifact@, moved@, s0);
                        }
                        artifact.push(moved);
                    },
                    None => {},
                }
                artifact
            },
            Opcode::Igu | Opcode::Igr | Opcode::Igd | Opcode::Igl => {
                let (value, mut artifact) = pop_as_bool(frame);
                match value {
                    Some(true) => {
                        let direction = match self {
                            Opcode::Igu => Direction::Up,
                            Opcode::Igr => Direction::Right,
                            Opcode::Igd => Direction::Down,
                            _ => Direction::Left,
                        };
                        let turned = frame.act(FrameAction::HeadDirectTo(direction));
                        proof {
                            lemma_valid_from_concat(artifact@, turned@, s0);
                        }
                        artifact.push(turned);
                    },
                    _ => {},
                }
                artifact
            },
            Opcode::Ijp => {
                let (condition, mut artifact) = pop_as_bool_with_default(frame);
                let (address, addr_artifact) = pop_address(frame);
                proof {
                    lemma_valid_from_concat(artifact@, addr_artifact@, s0);
                }
                artifact.push(addr_artifact);
                match address {
                    Some(address) => {
                        if condition {
                            let moved = frame.act(FrameAction::HeadMoveTo(address.position));
                            proof {
                                lemma_valid_from_concat(artifact@, moved@, s0);
                            }
                            artifact.push(moved);
                        }
                    },
                    None => {},
                }
                artifact
            },
            Opcode::Equ | Opcode::Neq => {
                let (rhs, mut artifact) = pop_literal(frame);
                let (lhs, lhs_artifact) = pop_literal(frame);
                proof {
                    lemma_valid_from_concat(artifact@, lhs_artifact@, s0);
                }
                artifact.push(lhs_artifact);
                let want_equal = match self {
                    Opcode::Equ => true,
                    _ => false,
                };
                let result = match (lhs, rhs) {
                    (Some(l), Some(r)) => if want_equal {
                        l == r
                    } else {
                        !(l == r)
                    },
                    _ => false,
                };
                let push_artifact = frame.act(
                    FrameAction::StackPush(Operand::from_literal(Literal::from_bool(result))),
                );
                proof {
                    lemma_valid_from_concat(artifact@, push_artifact@, s0);
                }
                artifact.push(push_artifact);
                artifact
            },
            Opcode::Grt | Opcode::Lst | Opcode::Grq | Opcode::Lsq => {
                let (rhs, mut artifact) = pop_as_numeric_with_default(frame);
                let (lhs, lhs_artifact) = pop_as_numeric_with_default(frame);
                proof {
                    lemma_valid_from_concat(artifact@, lhs_artifact@, s0);
                }
                artifact.push(lhs_artifact);
                let result = match self {
                    Opcode::Grt => lhs > rhs,
                    Opcode::Lst => lhs < rhs,
                    Opcode::Grq => lhs >= rhs,
                    _ => lhs <= rhs,
                };
                let push_artifact = frame.act(
                    FrameAction::StackPush(Operand::from_literal(Literal::from_bool(result))),
                );
                proof {
                    lemma_valid_from_concat(artifact@, push_artifact@, s0);
                }
                artifact.push(push_artifact);
                artifact
            },
            Opcode::Add | Opcode::Sub | Opcode::Mul | Opcode::Div => {
                let (rhs, mut artifact) = pop_as_numeric_with_default(frame);
                let (lhs, lhs_artifact) = pop_as_numeric_with_default(frame);
                proof {
                    lemma_valid_from_concat(artifact@, lhs_artifact@, s0);
                }
                artifact.push(lhs_artifact);
                let result = match self {
                    Opcode::Add => if lhs <= u32::MAX - rhs {
                        lhs + rhs
                    } else {
                        u32::MAX
                    },
                    Opcode::Sub => if lhs >= rhs {
                        lhs - rhs
                    } else {
                        0
                    },
                    Opcode::Mul => mul_saturating(lhs, rhs),
                    _ => if rhs == 0 {
                        0
                    } else {
                        lhs / rhs
                    },
                };
                proof {
                    assert(result == arith_result(self, lhs, rhs));
                }
                let push_artifact = frame.act(
                    FrameAction::StackPush(Operand::from_literal(Literal::from_number(result))),
                );
                proof {
                    lemma_valid_from_concat(artifact@, push_artifact@, s0);
                }
                artifact.push(push_artifact);
                artifact
            },
            Opcode::SetCell => {
                let (address, mut artifact) = pop_address(frame);
                let (literal, lit_artifact) = pop_literal(frame);
                proof {
                    lemma_valid_from_concat(artifact@, lit_artifact@, s0);
                }
                artifact.push(lit_artifact);
                match (address, literal) {
                    (Some(address), Some(literal)) => {
                        let set_artifact = frame.act(
                            FrameAction::GridSet(address.position, literal.as_cell()),
                        );
                        proof {
                            lemma_valid_from_concat(artifact@, set_artifact@, s0);
                        }
                        artifact.push(set_artifact);
                    },
                    _ => {},
                }
                artifact
            },
            Opcode::Prt => {
                let (operand, mut artifact) = pop_operand(frame);
                match operand {
                    Some(operand) => {
                        let text = operand.as_cell().content();
                        let print_artifact = frame.act(FrameAction::ConsolePrint(text));
                        proof {
                            lemma_valid_from_concat(artifact@, print_artifact@, s0);
                        }
                        artifact.push(print_artifact);
                    },
                    None => {},
                }
                artifact
            },
        };
        proof {
            assert(frame@ == opcode_body_eval(self, s0));
            assert(valid_from(artifact@, s0));
            assert(redo_run(artifact@, s0) == frame@);
        }
        let skips = match self {
            Opcode::Jmp | Opcode::Hlt | Opcode::Ijp => true,
            _ => false,
        };
        if !skips {
            let step_artifact = frame.act(FrameAction::HeadStep);
            proof {
                lemma_valid_from_concat(artifact@, step_artifact@, s0);
            }
            artifact.push(step_artifact);
        }
        artifact
    }
}

} // verus!
