//! The direction model: the four movement directions, their unit vectors,
//! their single-byte wire codes, and the perpendicularity test that filters
//! turn requests.

use vstd::prelude::*;
use crate::protocol::ProtocolError;

verus! {

/// A movement direction on the grid. On the wire each direction is one
/// byte: 0 for up, 1 for left, 2 for down, 3 for right.
#[derive(Clone, Copy, Debug, PartialEq, Eq, Structural)]
pub enum Direction {
    Up,
    Left,
    Down,
    Right,
}

impl Direction {
    /// The wire code of this direction.
    pub open spec fn spec_byte(self) -> u8 {
        match self {
            Direction::Up => 0,
            Direction::Left => 1,
            Direction::Down => 2,
            Direction::Right => 3,
        }
    }

    /// The direction a wire code stands for (meaningful for codes 0 to 3).
    pub open spec fn spec_of_byte(b: u8) -> Direction
        recommends
            b <= 3,
    {
        if b == 0 {
            Direction::Up
        } else if b == 1 {
            Direction::Left
        } else if b == 2 {
            Direction::Down
        } else {
            Direction::Right
        }
    }

    /// The unit movement vector of this direction.
    pub open spec fn spec_delta(self) -> (int, int) {
        match self {
            Direction::Up => (0, -1),
            Direction::Left => (-1, 0),
            Direction::Down => (0, 1),
            Direction::Right => (1, 0),
        }
    }

    /// Whether this direction moves along the vertical axis.
    pub open spec fn is_vertical(self) -> bool {
        self == Direction::Up || self == Direction::Down
    }

    /// Two directions are perpendicular when they move along different axes.
    pub open spec fn spec_perpendicular(self, other: Direction) -> bool {
        self.is_vertical() != other.is_vertical()
    }

    /// Encodes this direction as its wire byte.
    pub fn as_byte(self) -> (b: u8)
        ensures
            b == self.spec_byte(),
            b <= 3,
    {
        match self {
            Direction::Up => 0,
            Direction::Left => 1,
            Direction::Down => 2,
            Direction::Right => 3,
        }
    }

    /// Decodes a wire byte. Codes 0 to 3 give the four directions; any
    /// other byte is a protocol violation and is rejected, never coerced.
    pub fn try_from(value: u8) -> (r: Result<Direction, ProtocolError>)
        ensures
            value <= 3 ==> r == Ok::<Direction, ProtocolError>(Direction::spec_of_byte(value)),
            value > 3 ==> r == Err::<Direction, ProtocolError>(ProtocolError::InvalidInputToken),
    {
        match value {
            0 => Ok(Direction::Up),
            1 => Ok(Direction::Left),
            2 => Ok(Direction::Down),
            3 => Ok(Direction::Right),
            _ => Err(ProtocolError::InvalidInputToken),
        }
    }

    /// The executable movement vector, componentwise equal to `spec_delta`.
    pub fn delta(self) -> (d: (i32, i32))
        ensures
            d.0 == self.spec_delta().0,
            d.1 == self.spec_delta().1,
    {
        match self {
            Direction::Up => (0, -1),
            Direction::Left => (-1, 0),
            Direction::Down => (0, 1),
            Direction::Right => (1, 0),
        }
    }

    /// Tests whether `self` is perpendicular to `other`.
    pub fn perpendicular_to(self, other: Direction) -> (r: bool)
        ensures
            r == self.spec_perpendicular(other),
    {
        let self_vertical = match self {
            Direction::Up | Direction::Down => true,
            Direction::Left | Direction::Right => false,
        };
        let other_vertical = match other {
            Direction::Up | Direction::Down => true,
            Direction::Left | Direction::Right => false,
        };
        self_vertical != other_vertical
    }
}

/// Encoding a direction and decoding the byte gives the direction back, and
/// decoding any valid code and re-encoding gives the code back: the per-tick
/// input exchange is lossless in both directions.
pub proof fn lemma_direction_byte_round_trip(d: Direction, b: u8)
    requires
        b <= 3,
    ensures
        Direction::spec_of_byte(d.spec_byte()) == d,
        Direction::spec_of_byte(b).spec_byte() == b,
{
}

} // verus!
