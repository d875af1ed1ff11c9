use vstd::prelude::*;

use crate::error::GameError;
use crate::playmap::{bit_set, cell_mask, lemma_count_intersection, Playmap};
use crate::point::{Orientation, Point};
use crate::ship::{Ship, BATTLESHIP_SIZE, CRUISER_SIZE, DESTROYER_SIZE, SUBMARINE_SIZE};

verus! {

/// The mask of the cells of a sequence of points.
pub open spec fn points_mask(s: Seq<Point>) -> u128
    decreases s.len(),
{
    if s.len() == 0 {
        0
    } else {
        points_mask(s.drop_last()) | cell_mask(s.last().index())
    }
}

impl Point {
    /// How many steps along `o` stay on the grid, in the given sense.
    pub open spec fn room(self, o: Orientation, forward: bool) -> int {
        match o {
            Orientation::Horizontal => if forward {
                9 - self.x
            } else {
                self.x as int
            },
            Orientation::Vertical => if forward {
                9 - self.y
            } else {
                self.y as int
            },
        }
    }
}

impl Playmap {
    /// The number of marked cells that follow `p` without a gap along `o`.
    pub open spec fn run(self, p: Point, o: Orientation, forward: bool) -> nat
        decreases p.room(o, forward),
    {
        match p.spec_step(o, forward) {
            Some(q) => if self.marked(q) {
                1 + self.run(q, o, forward)
            } else {
                0
            },
            None => 0,
        }
    }

    /// The mask of the cells that `run` counts.
    pub open spec fn run_mask(self, p: Point, o: Orientation, forward: bool) -> u128
        decreases p.room(o, forward),
    {
        match p.spec_step(o, forward) {
            Some(q) => if self.marked(q) {
                cell_mask(q.index()) | self.run_mask(q, o, forward)
            } else {
                0
            },
            None => 0,
        }
    }

    /// The cells that a removal at `p` clears: `p` and the four runs from it.
    pub open spec fn removal_mask(self, p: Point) -> u128 {
        cell_mask(p.index()) | self.run_mask(p, Orientation::Vertical, false) | self.run_mask(
            p,
            Orientation::Vertical,
            true,
        ) | self.run_mask(p, Orientation::Horizontal, false) | self.run_mask(
            p,
            Orientation::Horizontal,
            true,
        )
    }

    /// The number of cells that a removal at `p` clears.
    pub open spec fn removal_len(self, p: Point) -> nat {
        1 + self.run(p, Orientation::Vertical, false) + self.run(p, Orientation::Vertical, true)
            + self.run(p, Orientation::Horizontal, false) + self.run(
            p,
            Orientation::Horizontal,
            true,
        )
    }
}

/// A run never leaves the grid.
proof fn lemma_run_bound(b: Playmap, p: Point, o: Orientation, forward: bool)
    requires
        p.wf(),
    ensures
        b.run(p, o, forward) <= p.room(o, forward),
    decreases p.room(o, forward),
{
    if let Some(q) = p.spec_step(o, forward) {
        if b.marked(q) {
            lemma_run_bound(b, q, o, forward);
        }
    }
}

/// One seat's fleet: where its vessels stand, where it has been fired at, and
/// how many vessels of each kind it holds.
pub struct Player {
    pub ships: Playmap,
    pub shots: Playmap,
    pub submarines: u8,
    pub destroyers: u8,
    pub cruisers: u8,
    pub battleships: u8,
}

impl Player {
    /// The number of placed vessels that cover `size` cells.
    pub open spec fn count_for(self, size: nat) -> u8 {
        if size == 1 {
            self.submarines
        } else if size == 2 {
            self.destroyers
        } else if size == 3 {
            self.cruisers
        } else if size == 4 {
            self.battleships
        } else {
            0
        }
    }

    /// The fleet with the counter of vessels of `size` cells set to `c`.
    pub open spec fn with_count(self, size: nat, c: int) -> Player {
        if size == 1 {
            Player { submarines: c as u8, ..self }
        } else if size == 2 {
            Player { destroyers: c as u8, ..self }
        } else if size == 3 {
            Player { cruisers: c as u8, ..self }
        } else if size == 4 {
            Player { battleships: c as u8, ..self }
        } else {
            self
        }
    }

    pub open spec fn empty() -> Player {
        Player {
            ships: Playmap::empty(),
            shots: Playmap::empty(),
            submarines: 0,
            destroyers: 0,
            cruisers: 0,
            battleships: 0,
        }
    }

    /// The fleet after `ship` is placed at `p`, when it fits.
    pub open spec fn spec_place(self, ship: Ship, p: Point) -> Player {
        Player {
            ships: Playmap { value: self.ships.value | points_mask(ship.spec_points(p)) },
            ..self
        }.with_count(ship.spec_size(), self.count_for(ship.spec_size()) + 1)
    }

    /// The fleet after a removal at `p`, or the error it ends in.
    pub open spec fn spec_remove(self, p: Point) -> Result<Player, GameError> {
        let len = self.ships.removal_len(p);
        if !self.ships.marked(p) {
            Err(GameError::EmptyCell)
        } else if 1 <= len <= 4 && self.count_for(len) > 0 {
            Ok(
                Player {
                    ships: Playmap { value: self.ships.value & !self.ships.removal_mask(p) },
                    ..self
                }.with_count(len, self.count_for(len) - 1),
            )
        } else {
            Err(GameError::CorruptState)
        }
    }

    /// The cells where a vessel has been hit.
    pub open spec fn spec_hits(self) -> Playmap {
        Playmap { value: self.ships.value & self.shots.value }
    }

    /// Whether some cell of a vessel has not been hit yet.
    pub open spec fn spec_intact(self) -> bool {
        self.spec_hits().count() < self.ships.count()
    }

    /// An empty fleet.
    pub fn new() -> (r: Player)
        ensures
            r == Player::empty(),
    {
        Player {
            ships: Playmap::new(),
            shots: Playmap::new(),
            submarines: 0,
            destroyers: 0,
            cruisers: 0,
            battleships: 0,
        }
    }

    pub fn has_ship_at(&self, point: Point) -> (r: bool)
        requires
            point.wf(),
        ensures
            r == self.ships.marked(point),
    {
        self.ships.is_marked_field(point)
    }

    /// The cells of the fleet's vessels that have been fired at.
    pub fn get_hits(&self) -> (r: Playmap)
        ensures
            r == self.spec_hits(),
    {
        self.ships.intersection(&self.shots)
    }

    /// Whether some cell of the fleet's vessels has not been fired at; an empty
    /// fleet has none.
    pub fn has_intact_ships(&self) -> (r: bool)
        ensures
            r == self.spec_intact(),
    {
        self.get_hits().population_count() < self.ships.population_count()
    }

    /// Places `ship` with its anchor at `point`; fails when it would leave the
    /// grid. Overlap with placed vessels is not checked.
    pub fn place_figure(&mut self, ship: Ship, point: Point) -> (r: Result<(), GameError>)
        requires
            point.wf(),
            old(self).count_for(ship.spec_size()) < 255,
        ensures
            r is Ok <==> ship.fits(point),
            r is Ok ==> *final(self) == old(self).spec_place(ship, point),
            r is Err ==> r == Err::<(), GameError>(GameError::OutOfRange) && *final(self) == *old(
                self,
            ),
    {
        let points = match ship.get_points(point) {
            Ok(points) => points,
            Err(e) => {
                return Err(e);
            },
        };
        let ghost v0 = self.ships.value;
        assert(points@.take(0) =~= Seq::<Point>::empty());
        assert(v0 | 0u128 == v0) by (bit_vector);
        let mut i: usize = 0;
        while i < points.len()
            invariant
                0 <= i <= points.len(),
                points@ == ship.spec_points(point),
                ship.fits(point),
                point.wf(),
                self.ships.value == v0 | points_mask(points@.take(i as int)),
                self.shots == old(self).shots,
                self.submarines == old(self).submarines,
                self.destroyers == old(self).destroyers,
                self.cruisers == old(self).cruisers,
                self.battleships == old(self).battleships,
            decreases points.len() - i,
        {
            let q = points[i];
            assert(q.wf());
            let ghost before = self.ships.value;
            self.ships.mark_field(q);
            proof {
                let s = points@.take(i + 1);
                assert(s.drop_last() =~= points@.take(i as int));
                let a = points_mask(points@.take(i as int));
                let m = cell_mask(q.index());
                assert((v0 | a) | m == v0 | (a | m)) by (bit_vector);
            }
            i = i + 1;
        }
        assert(points@.take(i as int) =~= points@);
        match ship {
            Ship::Submarine => self.submarines = self.submarines + 1,
            Ship::Destroyer(_) => self.destroyers = self.destroyers + 1,
            Ship::Cruiser(_) => self.cruisers = self.cruisers + 1,
            Ship::Battleship(_) => self.battleships = self.battleships + 1,
        }
        Ok(())
    }

    /// Removes the vessel that covers `point`: the cell itself and every run
    /// of marked cells that follows it in the four directions. The number of
    /// cells cleared names the kind whose counter goes down. Fails, changing
    /// nothing, when the cell is empty or when that number names no kind
    /// with a placed vessel.
    pub fn remove_figure(&mut self, point: Point) -> (r: Result<(), GameError>)
        requires
            point.wf(),
        ensures
            match old(self).spec_remove(point) {
                Ok(q) => r == Ok::<(), GameError>(()) && *final(self) == q,
                Err(e) => r == Err::<(), GameError>(e) && *final(self) == *old(self),
            },
    {
        if !self.ships.is_marked_field(point) {
            return Err(GameError::EmptyCell);
        }
        let mut cleared = self.ships;
        cleared.demark_field(point);
        let up = clear_run(&self.ships, &mut cleared, point, Orientation::Vertical, false);
        let down = clear_run(&self.ships, &mut cleared, point, Orientation::Vertical, true);
        let left = clear_run(&self.ships, &mut cleared, point, Orientation::Horizontal, false);
        let right = clear_run(&self.ships, &mut cleared, point, Orientation::Horizontal, true);
        proof {
            let v = self.ships.value;
            let m = cell_mask(point.index());
            let a = self.ships.run_mask(point, Orientation::Vertical, false);
            let b = self.ships.run_mask(point, Orientation::Vertical, true);
            let c = self.ships.run_mask(point, Orientation::Horizontal, false);
            let d = self.ships.run_mask(point, Orientation::Horizontal, true);
            assert(((((v & !m) & !a) & !b) & !c) & !d == v & !((((m | a) | b) | c) | d))
                by (bit_vector);
        }
        let length: u8 = 1 + up + down + left + right;
        if length == SUBMARINE_SIZE && self.submarines > 0 {
            self.submarines = self.submarines - 1;
        } else if length == DESTROYER_SIZE && self.destroyers > 0 {
            self.destroyers = self.destroyers - 1;
        } else if length == CRUISER_SIZE && self.cruisers > 0 {
            self.cruisers = self.cruisers - 1;
        } else if length == BATTLESHIP_SIZE && self.battleships > 0 {
            self.battleships = self.battleships - 1;
        } else {
            return Err(GameError::CorruptState);
        }
        self.ships = cleared;
        Ok(())
    }

    /// Records a shot fired at `point`.
    pub fn register_shot(&mut self, point: Point)
        requires
            point.wf(),
        ensures
            *final(self) == (Player { shots: old(self).shots.with_mark(point), ..*old(self) }),
    {
        self.shots.mark_field(point);
    }
}

/// A fleet has a vessel left exactly when one of the cells its vessels cover
/// has not been fired at.
pub proof fn lemma_intact_iff_unshot_cell(p: Player)
    ensures
        p.spec_intact() == (exists|i: int|
            0 <= i < 128 && bit_set(p.ships.value, i) && !bit_set(p.shots.value, i)),
{
    lemma_count_intersection(p.ships.value, p.shots.value, 128);
}

/// Clears from `cleared` the run of cells of `board` that follows `p` along
/// `o`, and returns its length.
fn clear_run(
    board: &Playmap,
    cleared: &mut Playmap,
    p: Point,
    o: Orientation,
    forward: bool,
) -> (n: u8)
    requires
        p.wf(),
    ensures
        n == board.run(p, o, forward),
        n <= 9,
        final(cleared).value == old(cleared).value & !board.run_mask(p, o, forward),
{
    let ghost c0 = cleared.value;
    let mut cur = p;
    let mut n: u8 = 0;
    proof {
        lemma_run_bound(*board, p, o, forward);
    }
    loop
        invariant
            cur.wf(),
            n + board.run(cur, o, forward) == board.run(p, o, forward),
            board.run(p, o, forward) <= 9,
            c0 & !board.run_mask(p, o, forward) == cleared.value & !board.run_mask(
                cur,
                o,
                forward,
            ),
        ensures
            cur.wf(),
            n == board.run(p, o, forward),
            board.run(p, o, forward) <= 9,
            board.run_mask(cur, o, forward) == 0,
            c0 & !board.run_mask(p, o, forward) == cleared.value,
        decreases cur.room(o, forward),
    {
        let step = if forward {
            cur.get_next(&o)
        } else {
            cur.get_prev(&o)
        };
        match step {
            Ok(next) => {
                if !board.is_marked_field(next) {
                    assert(board.run(cur, o, forward) == 0);
                    assert(board.run_mask(cur, o, forward) == 0);
                    let ghost c = cleared.value;
                    assert(c & !0u128 == c) by (bit_vector);
                    break ;
                }
                proof {
                    let c = cleared.value;
                    let m = cell_mask(next.index());
                    let rest = board.run_mask(next, o, forward);
                    assert(c & !(m | rest) == (c & !m) & !rest) by (bit_vector);
                }
                cleared.demark_field(next);
                cur = next;
                n = n + 1;
            },
            Err(_) => {
                assert(board.run(cur, o, forward) == 0);
                assert(board.run_mask(cur, o, forward) == 0);
                let ghost c = cleared.value;
                assert(c & !0u128 == c) by (bit_vector);
                break ;
            },
        }
    }
    n
}

} // verus!
