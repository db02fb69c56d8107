use vstd::prelude::*;

use vstd::pervasive::unreached;

use crate::direction::Direction;
use crate::error::GralifferError;

verus! {

/// True of the characters of the textual coordinate alphabet:
/// `A-Z`, `a-z`, `0-9`, `+` and `/`, in that order of value.
pub open spec fn is_axis_char(c: char) -> bool {
    let u = c as u32;
    (65 <= u && u <= 90)  // A-Z
    || (97 <= u && u <= 122)  // a-z
    || (48 <= u && u <= 57)  // 0-9
    || u == 43  // +
    || u == 47  // /
}

/// The numeric value a textual coordinate character stands for,
/// or `-1` for a character outside the alphabet.
pub open spec fn axis_num_of(c: char) -> int {
    let u = c as u32 as int;
    if 65 <= u && u <= 90 {
        u - 65
    } else if 97 <= u && u <= 122 {
        u - 97 + 26
    } else if 48 <= u && u <= 57 {
        u - 48 + 52
    } else if u == 43 {
        62
    } else if u == 47 {
        63
    } else {
        -1
    }
}

/// The textual coordinate character of a numeric value in `0 ..= 63`.
pub open spec fn axis_char_of(n: int) -> char {
    if 0 <= n && n <= 25 {
        ((n + 65) as u32) as char
    } else if 26 <= n && n <= 51 {
        ((n + 71) as u32) as char
    } else if 52 <= n && n <= 61 {
        ((n - 4) as u32) as char
    } else if n == 62 {
        (43 as u32) as char
    } else {
        (47 as u32) as char
    }
}

/// Round trip of the coordinate codec, textual side: reading a valid
/// character's numeric value and encoding it again yields the character.
pub proof fn lemma_axis_textual_round_trip(c: char)
    requires
        is_axis_char(c),
    ensures
        0 <= axis_num_of(c) <= 63,
        axis_char_of(axis_num_of(c)) == c,
{
    broadcast use vstd::utf8::char_u32_cast;

}

/// Round trip of the coordinate codec, numeric side: encoding a value in
/// `0 ..= 63` and reading the character back yields the value.
pub proof fn lemma_axis_numeric_round_trip(n: int)
    requires
        0 <= n <= 63,
    ensures
        is_axis_char(axis_char_of(n)),
        axis_num_of(axis_char_of(n)) == n,
{
    broadcast use vstd::utf8::char_u32_cast;

}

/// A coordinate along one axis of the grid: a value in `0 ..= 63`.
///
/// A `PositionAxis` has two representations:
/// - numeric: a number in `0 ..= 63`;
/// - textual: one character of the alphabet `A-Z`, `a-z`, `0-9`, `+`, `/`,
///   index-matched to the numeric value.
#[derive(Clone, Copy, PartialEq, Eq, Structural, Debug, Hash)]
pub struct PositionAxis {
    value: u8,
}

impl PositionAxis {
    /// Minimum numeric value of a `PositionAxis`.
    pub const MIN_NUMERIC: u32 = 0;

    /// Maximum numeric value of a `PositionAxis`; anything higher is invalid.
    pub const MAX_NUMERIC: u32 = 63;

    #[verifier::type_invariant]
    spec fn wf(self) -> bool {
        self.value <= 63
    }

    /// The numeric value of this axis coordinate, as a mathematical integer.
    pub closed spec fn numeric(self) -> int {
        self.value as int
    }

    /// True if the given number is a valid numeric representation:
    /// any number within `0 ..= 63`.
    pub fn is_valid_numeric(value: u32) -> (r: bool)
        ensures
            r == (value <= 63),
    {
        Self::MIN_NUMERIC <= value && value <= Self::MAX_NUMERIC
    }

    /// Restrict a number to the limits of the numeric representation.
    pub fn clamp_numeric(value: u32) -> (r: u32)
        ensures
            r == if value <= 63 { value as int } else { 63int },
    {
        if value > Self::MAX_NUMERIC {
            Self::MAX_NUMERIC
        } else {
            value
        }
    }

    /// True if the given character is a valid textual representation:
    /// any character in the set `A-Z`, `a-z`, `0-9`, `+`, `/`.
    pub fn is_valid_textual(value: char) -> (r: bool)
        ensures
            r == is_axis_char(value),
    {
        let u = value as u32;
        (65 <= u && u <= 90) || (97 <= u && u <= 122) || (48 <= u && u <= 57) || u == 43 || u == 47
    }

    /// The textual representation of a numeric coordinate.
    ///
    /// Fails exactly when the number is outside `0 ..= 63`.
    pub fn numeric_to_textual(coordinate: u32) -> (r: Result<char, GralifferError>)
        ensures
            r matches Ok(c) ==> coordinate <= 63 && c == axis_char_of(coordinate as int),
            r matches Err(e) ==> coordinate > 63 && e == GralifferError::AxisOutOfBounds,
    {
        if coordinate <= 25 {
            Ok(((coordinate + 65) as u8) as char)
        } else if coordinate <= 51 {
            Ok(((coordinate + 71) as u8) as char)
        } else if coordinate <= 61 {
            Ok(((coordinate - 4) as u8) as char)
        } else if coordinate == 62 {
            Ok(43u8 as char)
        } else if coordinate == 63 {
            Ok(47u8 as char)
        } else {
            Err(GralifferError::AxisOutOfBounds)
        }
    }

    /// The numeric representation of a textual coordinate character.
    ///
    /// Fails exactly when the character is outside the coordinate alphabet.
    pub fn textual_to_numeric(coordinate: char) -> (r: Result<u32, GralifferError>)
        ensures
            r matches Ok(n) ==> is_axis_char(coordinate) && n == axis_num_of(coordinate) && n <= 63,
            r matches Err(e) ==> !is_axis_char(coordinate) && e == GralifferError::InvalidAxisChar,
    {
        let u = coordinate as u32;
        if 65 <= u && u <= 90 {
            Ok(u - 65)
        } else if 97 <= u && u <= 122 {
            Ok(u - 97 + 26)
        } else if 48 <= u && u <= 57 {
            Ok(u - 48 + 52)
        } else if u == 43 {
            Ok(62)
        } else if u == 47 {
            Ok(63)
        } else {
            Err(GralifferError::InvalidAxisChar)
        }
    }

    /// An axis coordinate from a valid numeric representation.
    ///
    /// Fails exactly when the number is outside `0 ..= 63`.
    pub fn from_numeric(coordinate: u32) -> (r: Result<Self, GralifferError>)
        ensures
            r matches Ok(a) ==> coordinate <= 63 && a.numeric() == coordinate,
            r matches Err(e) ==> coordinate > 63 && e == GralifferError::AxisOutOfBounds,
    {
        if coordinate <= Self::MAX_NUMERIC {
            Ok(PositionAxis { value: coordinate as u8 })
        } else {
            Err(GralifferError::AxisOutOfBounds)
        }
    }

    /// An axis coordinate from a valid textual representation.
    ///
    /// Fails exactly when the character is outside the coordinate alphabet.
    pub fn from_textual(coordinate: char) -> (r: Result<Self, GralifferError>)
        ensures
            r matches Ok(a) ==> is_axis_char(coordinate) && a.numeric() == axis_num_of(coordinate),
            r matches Err(e) ==> !is_axis_char(coordinate) && e == GralifferError::InvalidAxisChar,
    {
        match Self::textual_to_numeric(coordinate) {
            Ok(n) => match Self::from_numeric(n) {
                Ok(a) => Ok(a),
                Err(_) => unreached(),
            },
            Err(e) => Err(e),
        }
    }

    /// The numeric representation of this axis coordinate.
    pub fn as_numeric(self) -> (r: u32)
        ensures
            r == self.numeric(),
            r <= 63,
    {
        proof {
            use_type_invariant(self);
        }
        self.value as u32
    }

    /// The textual representation of this axis coordinate.
    pub fn as_textual(self) -> (r: char)
        ensures
            r == axis_char_of(self.numeric()),
            0 <= self.numeric() <= 63,
    {
        proof {
            use_type_invariant(self);
        }
        match Self::numeric_to_textual(self.value as u32) {
            Ok(c) => c,
            Err(_) => unreached(),
        }
    }

    /// The sum of two axis coordinates.
    ///
    /// Fails exactly when the sum would leave the grid.
    #[must_use]
    pub fn checked_add(&self, other: Self) -> (r: Result<Self, GralifferError>)
        ensures
            r matches Ok(a) ==> self.numeric() + other.numeric() <= 63 && a.numeric()
                == self.numeric() + other.numeric(),
            r matches Err(e) ==> self.numeric() + other.numeric() > 63 && e
                == GralifferError::OutOfGrid,
    {
        proof {
            use_type_invariant(*self);
            use_type_invariant(other);
        }
        let sum = self.value + other.value;
        if sum <= 63 {
            Ok(PositionAxis { value: sum })
        } else {
            Err(GralifferError::OutOfGrid)
        }
    }

    /// The difference of two axis coordinates.
    ///
    /// Fails exactly when the difference would be negative.
    #[must_use]
    pub fn checked_sub(&self, other: Self) -> (r: Result<Self, GralifferError>)
        ensures
            r matches Ok(a) ==> self.numeric() >= other.numeric() && a.numeric() == self.numeric()
                - other.numeric(),
            r matches Err(e) ==> self.numeric() < other.numeric() && e == GralifferError::OutOfGrid,
    {
        proof {
            use_type_invariant(*self);
            use_type_invariant(other);
        }
        if self.value >= other.value {
            Ok(PositionAxis { value: self.value - other.value })
        } else {
            Err(GralifferError::OutOfGrid)
        }
    }

    /// This axis coordinate moved up by `value`.
    ///
    /// Fails exactly when the result would leave the grid.
    #[must_use]
    pub fn checked_increment(&self, value: u32) -> (r: Result<Self, GralifferError>)
        ensures
            r matches Ok(a) ==> self.numeric() + value <= 63 && a.numeric() == self.numeric()
                + value,
            r matches Err(e) ==> self.numeric() + value > 63 && e == GralifferError::OutOfGrid,
    {
        proof {
            use_type_invariant(*self);
        }
        if value > 63 {
            Err(GralifferError::OutOfGrid)
        } else {
            let sum = self.value as u32 + value;
            if sum <= 63 {
                Ok(PositionAxis { value: sum as u8 })
            } else {
                Err(GralifferError::OutOfGrid)
            }
        }
    }

    /// This axis coordinate moved down by `value`.
    ///
    /// Fails exactly when the result would be negative.
    #[must_use]
    pub fn checked_decrement(&self, value: u32) -> (r: Result<Self, GralifferError>)
        ensures
            r matches Ok(a) ==> self.numeric() >= value && a.numeric() == self.numeric() - value,
            r matches Err(e) ==> self.numeric() < value && e == GralifferError::OutOfGrid,
    {
        proof {
            use_type_invariant(*self);
        }
        if value <= self.value as u32 {
            Ok(PositionAxis { value: self.value - value as u8 })
        } else {
            Err(GralifferError::OutOfGrid)
        }
    }
}

/// A two-dimensional coordinate of the grid: a pair of [`PositionAxis`].
///
/// The textual representation is the two-character concatenation of the
/// axes, `x` first.
#[derive(Clone, Copy, PartialEq, Eq, Structural, Debug, Hash)]
pub struct Position {
    x: PositionAxis,
    y: PositionAxis,
}

/// The position a textual pair of characters stands for, when both are in
/// the coordinate alphabet.
pub closed spec fn position_of_chars(cx: char, cy: char) -> Position {
    Position {
        x: PositionAxis { value: axis_num_of(cx) as u8 },
        y: PositionAxis { value: axis_num_of(cy) as u8 },
    }
}

impl Position {
    /// The numeric value of the horizontal component.
    pub closed spec fn x_spec(self) -> int {
        self.x.numeric()
    }

    /// The numeric value of the vertical component.
    pub closed spec fn y_spec(self) -> int {
        self.y.numeric()
    }

    /// A position from its two axis coordinates.
    pub fn from_position_axis(x: PositionAxis, y: PositionAxis) -> (r: Self)
        ensures
            r.x_spec() == x.numeric(),
            r.y_spec() == y.numeric(),
    {
        Position { x, y }
    }

    /// A position from two valid numeric representations.
    ///
    /// Fails exactly when either number is outside `0 ..= 63`;
    /// an invalid `x` is reported first.
    pub fn from_numeric(x: u32, y: u32) -> (r: Result<Self, GralifferError>)
        ensures
            r matches Ok(p) ==> x <= 63 && y <= 63 && p.x_spec() == x && p.y_spec() == y,
            r matches Err(e) ==> (x > 63 || y > 63) && e == GralifferError::AxisOutOfBounds,
    {
        let ax = PositionAxis::from_numeric(x)?;
        let ay = PositionAxis::from_numeric(y)?;
        Ok(Self::from_position_axis(ax, ay))
    }

    /// A position from two valid textual representations.
    ///
    /// Fails exactly when either character is outside the coordinate
    /// alphabet; an invalid `x` is reported first.
    pub fn from_textual(x: char, y: char) -> (r: Result<Self, GralifferError>)
        ensures
            r matches Ok(p) ==> is_axis_char(x) && is_axis_char(y) && p == position_of_chars(x, y),
            r matches Err(e) ==> (!is_axis_char(x) || !is_axis_char(y)) && e
                == GralifferError::InvalidAxisChar,
    {
        let ax = PositionAxis::from_textual(x)?;
        let ay = PositionAxis::from_textual(y)?;
        Ok(Self::from_position_axis(ax, ay))
    }

    /// The textual representation, as the pair `(x, y)`.
    pub fn as_textual(self) -> (r: (char, char))
        ensures
            r.0 == axis_char_of(self.x_spec()),
            r.1 == axis_char_of(self.y_spec()),
            0 <= self.x_spec() <= 63,
            0 <= self.y_spec() <= 63,
    {
        (self.x.as_textual(), self.y.as_textual())
    }

    /// The textual representation, as a two-character string.
    pub fn as_textual_string(self) -> (r: String)
        ensures
            r@ == seq![axis_char_of(self.x_spec()), axis_char_of(self.y_spec())],
    {
        let mut s = String::new();
        crate::text::push_char(&mut s, self.x.as_textual());
        crate::text::push_char(&mut s, self.y.as_textual());
        proof {
            assert(s@ =~= seq![axis_char_of(self.x_spec()), axis_char_of(self.y_spec())]);
        }
        s
    }

    /// The numeric representation, as the pair `(x, y)`.
    pub fn as_numeric(self) -> (r: (u32, u32))
        ensures
            r.0 == self.x_spec() && r.1 == self.y_spec(),
    {
        (self.x.as_numeric(), self.y.as_numeric())
    }

    /// The numeric value of the horizontal component.
    pub fn x(self) -> (r: u32)
        ensures
            r == self.x_spec(),
            r <= 63,
    {
        self.x.as_numeric()
    }

    /// The numeric value of the vertical component.
    pub fn y(self) -> (r: u32)
        ensures
            r == self.y_spec(),
            r <= 63,
    {
        self.y.as_numeric()
    }

    /// Component-wise sum of two positions.
    ///
    /// Fails exactly when either component would leave the grid;
    /// an overflowing `x` is reported first.
    #[must_use]
    pub fn checked_add(&self, other: Self) -> (r: Result<Self, GralifferError>)
        ensures
            r matches Ok(p) ==> self.x_spec() + other.x_spec() <= 63 && self.y_spec()
                + other.y_spec() <= 63 && p.x_spec() == self.x_spec() + other.x_spec()
                && p.y_spec() == self.y_spec() + other.y_spec(),
            r matches Err(e) ==> (self.x_spec() + other.x_spec() > 63 || self.y_spec()
                + other.y_spec() > 63) && e == GralifferError::OutOfGrid,
    {
        let x = self.x.checked_add(other.x)?;
        let y = self.y.checked_add(other.y)?;
        Ok(Self::from_position_axis(x, y))
    }

    /// Component-wise difference of two positions.
    ///
    /// Fails exactly when either component would be negative;
    /// an underflowing `x` is reported first.
    #[must_use]
    pub fn checked_sub(&self, other: Self) -> (r: Result<Self, GralifferError>)
        ensures
            r matches Ok(p) ==> self.x_spec() >= other.x_spec() && self.y_spec() >= other.y_spec()
                && p.x_spec() == self.x_spec() - other.x_spec() && p.y_spec() == self.y_spec()
                - other.y_spec(),
            r matches Err(e) ==> (self.x_spec() < other.x_spec() || self.y_spec() < other.y_spec())
                && e == GralifferError::OutOfGrid,
    {
        let x = self.x.checked_sub(other.x)?;
        let y = self.y.checked_sub(other.y)?;
        Ok(Self::from_position_axis(x, y))
    }

    /// This position moved right by `value`.
    #[must_use]
    pub fn checked_increment_x(&self, value: u32) -> (r: Result<Self, GralifferError>)
        ensures
            r matches Ok(p) ==> self.x_spec() + value <= 63 && p.x_spec() == self.x_spec() + value
                && p.y_spec() == self.y_spec(),
            r matches Err(e) ==> self.x_spec() + value > 63 && e == GralifferError::OutOfGrid,
    {
        Ok(Self::from_position_axis(self.x.checked_increment(value)?, self.y))
    }

    /// This position moved down by `value`.
    #[must_use]
    pub fn checked_increment_y(&self, value: u32) -> (r: Result<Self, GralifferError>)
        ensures
            r matches Ok(p) ==> self.y_spec() + value <= 63 && p.y_spec() == self.y_spec() + value
                && p.x_spec() == self.x_spec(),
            r matches Err(e) ==> self.y_spec() + value > 63 && e == GralifferError::OutOfGrid,
    {
        Ok(Self::from_position_axis(self.x, self.y.checked_increment(value)?))
    }

    /// This position moved left by `value`.
    #[must_use]
    pub fn checked_decrement_x(&self, value: u32) -> (r: Result<Self, GralifferError>)
        ensures
            r matches Ok(p) ==> self.x_spec() >= value && p.x_spec() == self.x_spec() - value
                && p.y_spec() == self.y_spec(),
            r matches Err(e) ==> self.x_spec() < value && e == GralifferError::OutOfGrid,
    {
        Ok(Self::from_position_axis(self.x.checked_decrement(value)?, self.y))
    }

    /// This position moved up by `value`.
    #[must_use]
    pub fn checked_decrement_y(&self, value: u32) -> (r: Result<Self, GralifferError>)
        ensures
            r matches Ok(p) ==> self.y_spec() >= value && p.y_spec() == self.y_spec() - value
                && p.x_spec() == self.x_spec(),
            r matches Err(e) ==> self.y_spec() < value && e == GralifferError::OutOfGrid,
    {
        Ok(Self::from_position_axis(self.x, self.y.checked_decrement(value)?))
    }

    /// The row-major index of this position, always below `64 * 64`.
    pub fn key(self) -> (r: u16)
        ensures
            r == pos_key(self),
            r < 4096,
            valid_position(self),
    {
        let x = self.x.as_numeric();
        let y = self.y.as_numeric();
        (x + 64 * y) as u16
    }

    /// This position moved by `offset` cells in `direction`.
    ///
    /// Fails exactly when the move would leave the grid; it never wraps.
    pub fn checked_step(&self, direction: Direction, offset: u32) -> (r: Result<
        Self,
        GralifferError,
    >)
        ensures
            r matches Ok(p) ==> can_step_by(*self, direction, offset as int) && p == stepped_by(
                *self,
                direction,
                offset as int,
            ),
            r matches Err(e) ==> !can_step_by(*self, direction, offset as int) && e
                == GralifferError::OutOfGrid,
    {
        let r = match direction {
            Direction::Up => self.checked_decrement_y(offset),
            Direction::Right => self.checked_increment_x(offset),
            Direction::Down => self.checked_increment_y(offset),
            Direction::Left => self.checked_decrement_x(offset),
        };
        match r {
            Ok(p) => {
                proof {
                    assert(p =~= stepped_by(*self, direction, offset as int));
                }
                Ok(p)
            },
            Err(e) => Err(e),
        }
    }
}

/// The components of the position a textual pair stands for.
pub proof fn lemma_position_of_chars(cx: char, cy: char)
    requires
        is_axis_char(cx),
        is_axis_char(cy),
    ensures
        position_of_chars(cx, cy).x_spec() == axis_num_of(cx),
        position_of_chars(cx, cy).y_spec() == axis_num_of(cy),
{
}

/// The components of a stepped position, when the step stays on the grid.
pub proof fn lemma_stepped_by(pos: Position, direction: Direction, offset: int)
    requires
        0 <= offset,
        can_step_by(pos, direction, offset),
        0 <= pos.x_spec() <= 63,
        0 <= pos.y_spec() <= 63,
    ensures
        stepped_by(pos, direction, offset).x_spec() == match direction {
            Direction::Right => pos.x_spec() + offset,
            Direction::Left => pos.x_spec() - offset,
            _ => pos.x_spec(),
        },
        stepped_by(pos, direction, offset).y_spec() == match direction {
            Direction::Down => pos.y_spec() + offset,
            Direction::Up => pos.y_spec() - offset,
            _ => pos.y_spec(),
        },
{
    match direction {
        Direction::Up => {
            assert(stepped_by(pos, direction, offset).y_spec() == pos.y_spec() - offset);
        },
        Direction::Right => {
            assert(stepped_by(pos, direction, offset).x_spec() == pos.x_spec() + offset);
        },
        Direction::Down => {
            assert(stepped_by(pos, direction, offset).y_spec() == pos.y_spec() + offset);
        },
        Direction::Left => {
            assert(stepped_by(pos, direction, offset).x_spec() == pos.x_spec() - offset);
        },
    }
}

/// True of positions whose components lie on the grid. Every position
/// built by this library satisfies it.
pub open spec fn valid_position(p: Position) -> bool {
    0 <= p.x_spec() <= 63 && 0 <= p.y_spec() <= 63
}

/// The row-major index of a position: `x + 64 * y`.
pub open spec fn pos_key(p: Position) -> int {
    p.x_spec() + 64 * p.y_spec()
}

/// Two valid positions with the same row-major index are the same
/// position.
pub proof fn lemma_pos_key_injective(p: Position, q: Position)
    requires
        valid_position(p),
        valid_position(q),
        pos_key(p) == pos_key(q),
    ensures
        p == q,
{
    assert(64 * p.y_spec() - 64 * q.y_spec() == q.x_spec() - p.x_spec());
    if p.y_spec() > q.y_spec() {
        assert(64 * p.y_spec() >= 64 * q.y_spec() + 64);
        assert(false);
    }
    if p.y_spec() < q.y_spec() {
        assert(64 * p.y_spec() + 64 <= 64 * q.y_spec());
        assert(false);
    }
    assert(p.x_spec() == q.x_spec() && p.y_spec() == q.y_spec());
}

/// True if moving `pos` by `offset` cells in `direction` stays on the grid.
pub open spec fn can_step_by(pos: Position, direction: Direction, offset: int) -> bool {
    match direction {
        Direction::Up => pos.y_spec() >= offset,
        Direction::Right => pos.x_spec() + offset <= 63,
        Direction::Down => pos.y_spec() + offset <= 63,
        Direction::Left => pos.x_spec() >= offset,
    }
}

/// The position `offset` cells away from `pos` in `direction`.
pub closed spec fn stepped_by(pos: Position, direction: Direction, offset: int) -> Position {
    match direction {
        Direction::Up => Position { x: pos.x, y: PositionAxis { value: (pos.y.numeric() - offset) as u8 } },
        Direction::Right => Position { x: PositionAxis { value: (pos.x.numeric() + offset) as u8 }, y: pos.y },
        Direction::Down => Position { x: pos.x, y: PositionAxis { value: (pos.y.numeric() + offset) as u8 } },
        Direction::Left => Position { x: PositionAxis { value: (pos.x.numeric() - offset) as u8 }, y: pos.y },
    }
}

} // verus!
