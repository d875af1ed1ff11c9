use vstd::prelude::*;

use crate::error::GameError;

verus! {

/// The axis along which a vessel extends from its anchor.
#[derive(Clone, Copy, Debug, PartialEq, Eq, Structural)]
pub enum Orientation {
    Horizontal,
    Vertical,
}

/// A cell of the grid; `wf` holds of every point the engine hands out.
#[derive(Clone, Copy, Debug, PartialEq, Eq, Structural)]
pub struct Point {
    pub x: u8,
    pub y: u8,
}

/// The largest coordinate on either axis.
pub const MAX_COORD: u8 = 9;

impl Point {
    pub open spec fn wf(self) -> bool {
        self.x <= 9 && self.y <= 9
    }

    /// Row-major position of the cell: `y * 10 + x`.
    pub open spec fn index(self) -> int {
        self.y * 10 + self.x
    }

    pub open spec fn spec_next(self, o: Orientation) -> Option<Point> {
        match o {
            Orientation::Horizontal => if self.x < 9 {
                Some(Point { x: (self.x + 1) as u8, y: self.y })
            } else {
                None
            },
            Orientation::Vertical => if self.y < 9 {
                Some(Point { x: self.x, y: (self.y + 1) as u8 })
            } else {
                None
            },
        }
    }

    pub open spec fn spec_prev(self, o: Orientation) -> Option<Point> {
        match o {
            Orientation::Horizontal => if self.x > 0 {
                Some(Point { x: (self.x - 1) as u8, y: self.y })
            } else {
                None
            },
            Orientation::Vertical => if self.y > 0 {
                Some(Point { x: self.x, y: (self.y - 1) as u8 })
            } else {
                None
            },
        }
    }

    /// One step along `o`, towards larger indices when `forward` holds.
    pub open spec fn spec_step(self, o: Orientation, forward: bool) -> Option<Point> {
        if forward {
            self.spec_next(o)
        } else {
            self.spec_prev(o)
        }
    }

    /// The point that a byte encodes: high nibble `x`, low nibble `y`.
    pub open spec fn spec_decode(b: u8) -> Point {
        Point { x: b >> 4, y: b & 15 }
    }

    pub open spec fn spec_encode(self) -> u8 {
        (self.x * 16 + self.y) as u8
    }

    pub fn new(x: u8, y: u8) -> (r: Result<Point, GameError>)
        ensures
            r == (if x <= MAX_COORD && y <= MAX_COORD {
                Ok((Point { x, y }))
            } else {
                Err(GameError::OutOfRange)
            }),
    {
        if x > MAX_COORD || y > MAX_COORD {
            return Err(GameError::OutOfRange);
        }
        Ok(Point { x, y })
    }

    pub fn get_next(&self, orientation: &Orientation) -> (r: Result<Point, GameError>)
        requires
            self.wf(),
        ensures
            r == (match self.spec_next(*orientation) {
                Some(q) => Ok(q),
                None => Err(GameError::OutOfRange),
            }),
    {
        match orientation {
            Orientation::Horizontal => {
                if self.x == MAX_COORD {
                    return Err(GameError::OutOfRange);
                }
                Ok(Point { x: self.x + 1, y: self.y })
            },
            Orientation::Vertical => {
                if self.y == MAX_COORD {
                    return Err(GameError::OutOfRange);
                }
                Ok(Point { x: self.x, y: self.y + 1 })
            },
        }
    }

    pub fn get_prev(&self, orientation: &Orientation) -> (r: Result<Point, GameError>)
        requires
            self.wf(),
        ensures
            r == (match self.spec_prev(*orientation) {
                Some(q) => Ok(q),
                None => Err(GameError::OutOfRange),
            }),
    {
        match orientation {
            Orientation::Horizontal => {
                if self.x == 0 {
                    return Err(GameError::OutOfRange);
                }
                Ok(Point { x: self.x - 1, y: self.y })
            },
            Orientation::Vertical => {
                if self.y == 0 {
                    return Err(GameError::OutOfRange);
                }
                Ok(Point { x: self.x, y: self.y - 1 })
            },
        }
    }

    /// Reads a point from its one-byte wire code.
    pub fn from_u8(value: u8) -> (r: Result<Point, GameError>)
        ensures
            r == (if Point::spec_decode(value).wf() {
                Ok(Point::spec_decode(value))
            } else {
                Err(GameError::OutOfRange)
            }),
    {
        let x: u8 = value >> 4;
        let y: u8 = value & 15;
        Point::new(x, y)
    }

    /// The one-byte wire code of a point.
    pub fn to_u8(&self) -> (r: u8)
        requires
            self.wf(),
        ensures
            r == self.spec_encode(),
    {
        self.x * 16 + self.y
    }
}

impl TryFrom<u8> for Point {
    type Error = GameError;

    fn try_from(value: u8) -> Result<Point, GameError> {
        Point::from_u8(value)
    }
}

impl vstd::std_specs::convert::TryFromSpecImpl<u8> for Point {
    open spec fn obeys_try_from_spec() -> bool {
        true
    }

    open spec fn try_from_spec(value: u8) -> Result<Point, GameError> {
        if Point::spec_decode(value).wf() {
            Ok(Point::spec_decode(value))
        } else {
            Err(GameError::OutOfRange)
        }
    }
}

/// Every byte whose two nibbles are grid coordinates is the code of the point
/// it decodes to.
pub proof fn lemma_code_round_trip(b: u8)
    requires
        Point::spec_decode(b).wf(),
    ensures
        Point::spec_decode(b).spec_encode() == b,
{
    assert((b >> 4u8) <= 9 && (b & 15u8) <= 9 ==> (((b >> 4u8) * 16 + (b & 15u8)) as u8) == b)
        by (bit_vector);
}

/// Every point of the grid decodes back from its code.
pub proof fn lemma_point_round_trip(p: Point)
    requires
        p.wf(),
    ensures
        Point::spec_decode(p.spec_encode()) == p,
{
    let x = p.x;
    let y = p.y;
    assert(x <= 9 && y <= 9 ==> ((((x * 16 + y) as u8) >> 4u8) == x && (((x * 16 + y) as u8)
        & 15u8) == y)) by (bit_vector);
}

} // verus!
