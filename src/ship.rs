use vstd::prelude::*;

use crate::error::GameError;
use crate::point::{Orientation, Point};

verus! {

/// The four vessel kinds; all but the submarine extend along an orientation.
#[derive(Clone, Copy, Debug, PartialEq, Eq, Structural)]
pub enum Ship {
    Submarine,
    Destroyer(Orientation),
    Cruiser(Orientation),
    Battleship(Orientation),
}

pub const SUBMARINE_SIZE: u8 = 1;

pub const DESTROYER_SIZE: u8 = 2;

pub const CRUISER_SIZE: u8 = 3;

pub const BATTLESHIP_SIZE: u8 = 4;

impl Point {
    /// The point `k` steps from this one along `o`, towards larger indices.
    pub open spec fn shifted(self, o: Orientation, k: int) -> Point {
        match o {
            Orientation::Horizontal => Point { x: (self.x + k) as u8, y: self.y },
            Orientation::Vertical => Point { x: self.x, y: (self.y + k) as u8 },
        }
    }
}

impl Ship {
    pub open spec fn spec_size(self) -> nat {
        match self {
            Ship::Submarine => 1,
            Ship::Destroyer(_) => 2,
            Ship::Cruiser(_) => 3,
            Ship::Battleship(_) => 4,
        }
    }

    /// The axis of the vessel; a submarine covers one cell, so either would do.
    pub open spec fn spec_orientation(self) -> Orientation {
        match self {
            Ship::Submarine => Orientation::Horizontal,
            Ship::Destroyer(o) => o,
            Ship::Cruiser(o) => o,
            Ship::Battleship(o) => o,
        }
    }

    /// Whether every cell of the vessel anchored at `p` lies on the grid.
    pub open spec fn fits(self, p: Point) -> bool {
        match self.spec_orientation() {
            Orientation::Horizontal => p.x + self.spec_size() - 1 <= 9,
            Orientation::Vertical => p.y + self.spec_size() - 1 <= 9,
        }
    }

    /// The cells of the vessel anchored at `p`, the anchor first.
    pub open spec fn spec_points(self, p: Point) -> Seq<Point> {
        Seq::new(self.spec_size(), |k: int| p.shifted(self.spec_orientation(), k))
    }

    /// The vessel that a one-byte wire code names.
    pub open spec fn spec_from_code(value: u8) -> Result<Ship, GameError> {
        if value == 1 {
            Ok(Ship::Submarine)
        } else if value == 2 {
            Ok(Ship::Destroyer(Orientation::Horizontal))
        } else if value == 3 {
            Ok(Ship::Destroyer(Orientation::Vertical))
        } else if value == 4 {
            Ok(Ship::Cruiser(Orientation::Horizontal))
        } else if value == 5 {
            Ok(Ship::Cruiser(Orientation::Vertical))
        } else if value == 6 {
            Ok(Ship::Battleship(Orientation::Horizontal))
        } else if value == 7 {
            Ok(Ship::Battleship(Orientation::Vertical))
        } else {
            Err(GameError::UnknownShipType)
        }
    }

    /// Reads a vessel from its one-byte wire code.
    pub fn from_u8(value: u8) -> (r: Result<Ship, GameError>)
        ensures
            r == Ship::spec_from_code(value),
    {
        match value {
            1 => Ok(Ship::Submarine),
            2 => Ok(Ship::Destroyer(Orientation::Horizontal)),
            3 => Ok(Ship::Destroyer(Orientation::Vertical)),
            4 => Ok(Ship::Cruiser(Orientation::Horizontal)),
            5 => Ok(Ship::Cruiser(Orientation::Vertical)),
            6 => Ok(Ship::Battleship(Orientation::Horizontal)),
            7 => Ok(Ship::Battleship(Orientation::Vertical)),
            _ => Err(GameError::UnknownShipType),
        }
    }

    /// The number of cells the vessel covers.
    pub fn size(&self) -> (r: u8)
        ensures
            r == self.spec_size(),
    {
        match self {
            Ship::Submarine => SUBMARINE_SIZE,
            Ship::Destroyer(_) => DESTROYER_SIZE,
            Ship::Cruiser(_) => CRUISER_SIZE,
            Ship::Battleship(_) => BATTLESHIP_SIZE,
        }
    }

    fn orientation(&self) -> (r: Orientation)
        ensures
            r == self.spec_orientation(),
    {
        match self {
            Ship::Submarine => Orientation::Horizontal,
            Ship::Destroyer(o) => *o,
            Ship::Cruiser(o) => *o,
            Ship::Battleship(o) => *o,
        }
    }

    /// The cells that the vessel covers when anchored at `point`, the anchor
    /// first; fails when one of them would leave the grid.
    pub fn get_points(&self, point: Point) -> (r: Result<Vec<Point>, GameError>)
        requires
            point.wf(),
        ensures
            match r {
                Ok(v) => self.fits(point) && v@ == self.spec_points(point),
                Err(e) => !self.fits(point) && e == GameError::OutOfRange,
            },
    {
        let size = self.size();
        let ort = self.orientation();
        let mut points: Vec<Point> = Vec::new();
        points.push(point);
        let mut last = point;
        let mut k: u8 = 1;
        while k < size
            invariant
                1 <= k <= size,
                size == self.spec_size(),
                ort == self.spec_orientation(),
                point.wf(),
                last.wf(),
                last == point.shifted(ort, k - 1),
                points@ == self.spec_points(point).take(k as int),
            decreases size - k,
        {
            match last.get_next(&ort) {
                Ok(next) => {
                    points.push(next);
                    last = next;
                    k = k + 1;
                    assert(points@ =~= self.spec_points(point).take(k as int));
                },
                Err(e) => {
                    return Err(e);
                },
            }
        }
        assert(points@ =~= self.spec_points(point));
        Ok(points)
    }
}

impl TryFrom<u8> for Ship {
    type Error = GameError;

    fn try_from(value: u8) -> Result<Ship, GameError> {
        Ship::from_u8(value)
    }
}

impl vstd::std_specs::convert::TryFromSpecImpl<u8> for Ship {
    open spec fn obeys_try_from_spec() -> bool {
        true
    }

    open spec fn try_from_spec(value: u8) -> Result<Ship, GameError> {
        Ship::spec_from_code(value)
    }
}

} // verus!
