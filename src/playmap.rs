use vstd::prelude::*;

use crate::point::Point;

verus! {

/// The bit of a board value that stands for the cell with row-major index `i`:
/// index 0 is the most significant bit.
pub open spec fn cell_mask(i: int) -> u128 {
    1u128 << ((127 - i) as u128)
}

/// Whether the cell with index `i` is marked in the board value `v`.
pub open spec fn bit_set(v: u128, i: int) -> bool {
    v & cell_mask(i) != 0
}

/// How many of the indices `0..n` are marked in the board value `v`.
pub open spec fn marked_count(v: u128, n: nat) -> nat
    decreases n,
{
    if n == 0 {
        0
    } else {
        marked_count(v, (n - 1) as nat) + (if bit_set(v, n - 1) {
            1nat
        } else {
            0nat
        })
    }
}

/// Relies on u128::count_ones: the number of one bits of `v`; the masks of the
/// indices `0..128` are its 128 bits, one each.
#[verifier::external_body]
fn count_ones(v: u128) -> (r: u32)
    ensures
        r == marked_count(v, 128),
{
    v.count_ones()
}

/// A set of cells of the grid, one bit per cell.
#[derive(Clone, Copy, Debug, PartialEq, Eq, Structural)]
pub struct Playmap {
    pub value: u128,
}

impl Playmap {
    /// Whether the cell with index `i` is marked.
    pub open spec fn has(self, i: int) -> bool {
        bit_set(self.value, i)
    }

    pub open spec fn empty() -> Playmap {
        Playmap { value: 0 }
    }

    pub open spec fn marked(self, p: Point) -> bool {
        self.has(p.index())
    }

    pub open spec fn with_mark(self, p: Point) -> Playmap {
        Playmap { value: self.value | cell_mask(p.index()) }
    }

    pub open spec fn without_mark(self, p: Point) -> Playmap {
        Playmap { value: self.value & !cell_mask(p.index()) }
    }

    pub open spec fn count(self) -> nat {
        marked_count(self.value, 128)
    }

    /// The board with no cell marked.
    pub fn new() -> (r: Playmap)
        ensures
            r.value == 0,
    {
        Playmap { value: 0 }
    }

    pub fn is_marked_field(&self, point: Point) -> (r: bool)
        requires
            point.wf(),
        ensures
            r == self.marked(point),
    {
        let point_index: u32 = (point.y as u32) * 10 + (point.x as u32) + 1;
        let bit_index: u32 = 128 - point_index;
        let v = self.value;
        assert(bit_index < 128 ==> (((v >> bit_index) & 1u128 == 1u128) == (v & (1u128
            << bit_index) != 0))) by (bit_vector);
        (v >> bit_index) & 1 == 1
    }

    pub fn mark_field(&mut self, point: Point)
        requires
            point.wf(),
        ensures
            *final(self) == old(self).with_mark(point),
    {
        let point_index: u32 = (point.y as u32) * 10 + (point.x as u32) + 1;
        let bit_index: u32 = 128 - point_index;
        self.value = self.value | (1u128 << bit_index);
    }

    pub fn demark_field(&mut self, point: Point)
        requires
            point.wf(),
        ensures
            *final(self) == old(self).without_mark(point),
    {
        let point_index: u32 = (point.y as u32) * 10 + (point.x as u32) + 1;
        let bit_index: u32 = 128 - point_index;
        self.value = self.value & !(1u128 << bit_index);
    }

    /// The cells marked on both boards.
    pub fn intersection(&self, other: &Playmap) -> (r: Playmap)
        ensures
            r.value == self.value & other.value,
    {
        Playmap { value: self.value & other.value }
    }

    /// The number of marked cells.
    pub fn population_count(&self) -> (r: u32)
        ensures
            r == self.count(),
    {
        count_ones(self.value)
    }
}

impl From<u128> for Playmap {
    fn from(value: u128) -> (r: Playmap)
        ensures
            r.value == value,
    {
        Playmap { value }
    }
}

impl vstd::std_specs::convert::FromSpecImpl<u128> for Playmap {
    open spec fn obeys_from_spec() -> bool {
        true
    }

    open spec fn from_spec(value: u128) -> Playmap {
        Playmap { value }
    }
}

/// Marking a cell of the empty board and clearing it again gives the empty
/// board back, and marking a cell twice is marking it once.
pub proof fn lemma_mark_clear(b: Playmap, p: Point)
    requires
        p.wf(),
    ensures
        Playmap::empty().with_mark(p).without_mark(p) == Playmap::empty(),
        b.with_mark(p).with_mark(p) == b.with_mark(p),
{
    let m = cell_mask(p.index());
    let v = b.value;
    assert((0u128 | m) & !m == 0) by (bit_vector);
    assert((v | m) | m == v | m) by (bit_vector);
}

/// Marking a cell marks that cell and leaves every other cell as it was;
/// clearing a cell unmarks it and leaves every other cell as it was.
pub proof fn lemma_mark_cells(b: Playmap, p: Point, i: int)
    requires
        p.wf(),
        0 <= i < 128,
    ensures
        b.with_mark(p).has(i) == (b.has(i) || i == p.index()),
        b.without_mark(p).has(i) == (b.has(i) && i != p.index()),
{
    let v = b.value;
    let s = (127 - i) as u128;
    let t = (127 - p.index()) as u128;
    assert(s < 128 && t < 128 ==> (((v | (1u128 << t)) & (1u128 << s) != 0) == (v & (1u128
        << s) != 0 || s == t))) by (bit_vector);
    assert(s < 128 && t < 128 ==> (((v & !(1u128 << t)) & (1u128 << s) != 0) == (v & (1u128
        << s) != 0 && s != t))) by (bit_vector);
}

/// A cell is marked in the intersection of two boards exactly when it is
/// marked in both.
pub proof fn lemma_intersection_cells(a: u128, b: u128, i: int)
    requires
        0 <= i < 128,
    ensures
        bit_set(a & b, i) == (bit_set(a, i) && bit_set(b, i)),
{
    let s = (127 - i) as u128;
    assert(s < 128 ==> (((a & b) & (1u128 << s) != 0) == (a & (1u128 << s) != 0 && b & (1u128
        << s) != 0))) by (bit_vector);
}

/// Among the indices `0..n`, the intersection with `b` marks no more cells
/// than `a` does, and fewer exactly when some cell marked in `a` is not
/// marked in `b`.
pub proof fn lemma_count_intersection(a: u128, b: u128, n: nat)
    requires
        n <= 128,
    ensures
        marked_count(a & b, n) <= marked_count(a, n),
        (marked_count(a & b, n) < marked_count(a, n)) == (exists|i: int|
            0 <= i < n && bit_set(a, i) && !bit_set(b, i)),
    decreases n,
{
    if n > 0 {
        let k = n - 1;
        lemma_count_intersection(a, b, k as nat);
        lemma_intersection_cells(a, b, k);
        if exists|i: int| 0 <= i < n && bit_set(a, i) && !bit_set(b, i) {
            let i = choose|i: int| 0 <= i < n && bit_set(a, i) && !bit_set(b, i);
            if i < k {
                assert(exists|j: int| 0 <= j < k && bit_set(a, j) && !bit_set(b, j));
            }
        } else {
            assert(!(exists|j: int| 0 <= j < k && bit_set(a, j) && !bit_set(b, j))) by {
                assert forall|j: int| 0 <= j < k && bit_set(a, j) implies bit_set(b, j) by {
                    assert(0 <= j < n);
                }
            }
        }
    }
}

} // verus!
