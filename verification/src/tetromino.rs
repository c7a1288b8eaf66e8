//! Piece shapes, their orientation masks, and the weighted piece randomizer.
//!
//! An orientation mask (a "qube") is a fixed 4-row bitmap: each row is a `u8`
//! whose four high bits carry the occupied cells of that row, leftmost cell
//! first. The authored tables below give the classic silhouettes of the seven
//! shapes in each of the four facings.

use vstd::prelude::*;
use crate::geometry::Direction;
use crate::rng::random_u64_below;

verus! {

/// One row of an orientation mask.
pub type QubeRow = u8;

/// An orientation mask: four rows, top row first.
pub type Qube = [u8; 4];

/// Side length of the square bounding box of every orientation mask.
pub const QUBE_SIZE: u16 = 4;

/// The column a mask row's bits align with when its `u8` value is widened to
/// a field row without shifting.
pub const QUBE_ROW_DEFAULT_X: u16 = 2;

/// A mask row with no occupied cell. Such rows carry no collision
/// information and are skipped by the field's scans.
pub const EMPTY_QUBE_ROW: u8 = 0;

/// The seven piece shapes.
#[derive(Clone, Copy, Debug, PartialEq, Eq, Structural)]
pub enum Tetromino {
    L,
    J,
    T,
    I,
    O,
    S,
    Z,
}

impl Tetromino {
    /// Tight bounding box `(width, height)` of the shape in the given facing.
    pub open spec fn spec_dimensions(self, d: Direction) -> (u16, u16) {
        match self {
            Tetromino::L | Tetromino::J | Tetromino::T | Tetromino::S | Tetromino::Z => match d {
                Direction::Up | Direction::Down => (3u16, 2u16),
                Direction::Left | Direction::Right => (2u16, 3u16),
            },
            Tetromino::I => match d {
                Direction::Up | Direction::Down => (1u16, 4u16),
                Direction::Left | Direction::Right => (4u16, 1u16),
            },
            Tetromino::O => (2u16, 2u16),
        }
    }

    /// Bounding box of the shape in the given facing.
    pub fn dimensions(&self, direction: &Direction) -> (r: (u16, u16))
        ensures
            r == self.spec_dimensions(*direction),
    {
        match self {
            Tetromino::L | Tetromino::J | Tetromino::T => match direction {
                Direction::Up | Direction::Down => (3, 2),
                Direction::Left | Direction::Right => (2, 3),
            },
            Tetromino::I => match direction {
                Direction::Up | Direction::Down => (1, 4),
                Direction::Left | Direction::Right => (4, 1),
            },
            Tetromino::O => (2, 2),
            Tetromino::S | Tetromino::Z => match direction {
                Direction::Up | Direction::Down => (3, 2),
                Direction::Left | Direction::Right => (2, 3),
            },
        }
    }

    /// The authored orientation mask of the shape in the given facing, as the
    /// sequence of its four rows.
    pub open spec fn spec_qube(self, d: Direction) -> Seq<u8> {
        match self {
            Tetromino::L => match d {
                Direction::Up => seq![0b0010_0000u8, 0b1110_0000u8, 0u8, 0u8],
                Direction::Right => seq![0b1000_0000u8, 0b1000_0000u8, 0b1100_0000u8, 0u8],
                Direction::Down => seq![0b1110_0000u8, 0b1000_0000u8, 0u8, 0u8],
                Direction::Left => seq![0b1100_0000u8, 0b0100_0000u8, 0b0100_0000u8, 0u8],
            },
            Tetromino::J => match d {
                Direction::Up => seq![0b1000_0000u8, 0b1110_0000u8, 0u8, 0u8],
                Direction::Right => seq![0b1100_0000u8, 0b1000_0000u8, 0b1000_0000u8, 0u8],
                Direction::Down => seq![0b1110_0000u8, 0b0010_0000u8, 0u8, 0u8],
                Direction::Left => seq![0b0100_0000u8, 0b0100_0000u8, 0b1100_0000u8, 0u8],
            },
            Tetromino::T => match d {
                Direction::Up => seq![0b0100_0000u8, 0b1110_0000u8, 0u8, 0u8],
                Direction::Right => seq![0b1000_0000u8, 0b1100_0000u8, 0b1000_0000u8, 0u8],
                Direction::Down => seq![0b1110_0000u8, 0b0100_0000u8, 0u8, 0u8],
                Direction::Left => seq![0b0100_0000u8, 0b1100_0000u8, 0b0100_0000u8, 0u8],
            },
            Tetromino::I => match d {
                Direction::Up | Direction::Down => seq![
                    0b1000_0000u8,
                    0b1000_0000u8,
                    0b1000_0000u8,
                    0b1000_0000u8,
                ],
                Direction::Left | Direction::Right => seq![0b1111_0000u8, 0u8, 0u8, 0u8],
            },
            Tetromino::O => seq![0b1100_0000u8, 0b1100_0000u8, 0u8, 0u8],
            Tetromino::S => match d {
                Direction::Up | Direction::Down => seq![0b0110_0000u8, 0b1100_0000u8, 0u8, 0u8],
                Direction::Left | Direction::Right => seq![
                    0b1000_0000u8,
                    0b1100_0000u8,
                    0b0100_0000u8,
                    0u8,
                ],
            },
            Tetromino::Z => match d {
                Direction::Up | Direction::Down => seq![0b1100_0000u8, 0b0110_0000u8, 0u8, 0u8],
                Direction::Left | Direction::Right => seq![
                    0b0100_0000u8,
                    0b1100_0000u8,
                    0b1000_0000u8,
                    0u8,
                ],
            },
        }
    }

    /// The authored orientation mask of the shape in the given facing.
    pub fn get_cube_by_direction(&self, direction: &Direction) -> (q: Qube)
        ensures
            q@ == self.spec_qube(*direction),
    {
        let q: Qube = match self {
            Tetromino::L => match direction {
                Direction::Up => [0b0010_0000, 0b1110_0000, 0, 0],
                Direction::Right => [0b1000_0000, 0b1000_0000, 0b1100_0000, 0],
                Direction::Down => [0b1110_0000, 0b1000_0000, 0, 0],
                Direction::Left => [0b1100_0000, 0b0100_0000, 0b0100_0000, 0],
            },
            Tetromino::J => match direction {
                Direction::Up => [0b1000_0000, 0b1110_0000, 0, 0],
                Direction::Right => [0b1100_0000, 0b1000_0000, 0b1000_0000, 0],
                Direction::Down => [0b1110_0000, 0b0010_0000, 0, 0],
                Direction::Left => [0b0100_0000, 0b0100_0000, 0b1100_0000, 0],
            },
            Tetromino::T => match direction {
                Direction::Up => [0b0100_0000, 0b1110_0000, 0, 0],
                Direction::Right => [0b1000_0000, 0b1100_0000, 0b1000_0000, 0],
                Direction::Down => [0b1110_0000, 0b0100_0000, 0, 0],
                Direction::Left => [0b0100_0000, 0b1100_0000, 0b0100_0000, 0],
            },
            Tetromino::I => match direction {
                Direction::Up | Direction::Down => [
                    0b1000_0000,
                    0b1000_0000,
                    0b1000_0000,
                    0b1000_0000,
                ],
                Direction::Left | Direction::Right => [0b1111_0000, 0, 0, 0],
            },
            Tetromino::O => [0b1100_0000, 0b1100_0000, 0, 0],
            Tetromino::S => match direction {
                Direction::Up | Direction::Down => [0b0110_0000, 0b1100_0000, 0, 0],
                Direction::Left | Direction::Right => [0b1000_0000, 0b1100_0000, 0b0100_0000, 0],
            },
            Tetromino::Z => match direction {
                Direction::Up | Direction::Down => [0b1100_0000, 0b0110_0000, 0, 0],
                Direction::Left | Direction::Right => [0b0100_0000, 0b1100_0000, 0b1000_0000, 0],
            },
        };
        proof {
            assert(q@ =~= self.spec_qube(*direction));
        }
        q
    }

    /// Draws one of the seven shapes uniformly at random.
    pub fn random() -> Tetromino {
        let r = random_u64_below(7);
        if r == 0 {
            Tetromino::L
        } else if r == 1 {
            Tetromino::J
        } else if r == 2 {
            Tetromino::T
        } else if r == 3 {
            Tetromino::I
        } else if r == 4 {
            Tetromino::O
        } else if r == 5 {
            Tetromino::S
        } else {
            Tetromino::Z
        }
    }
}

/// How many of the first `k` mask rows are non-empty. Non-empty rows sit at
/// the top of every authored mask, so this is also the field row offset that
/// the `k`-th mask row lands on.
pub open spec fn nz_before(q: Seq<u8>, k: int) -> int
    decreases k,
{
    if k <= 0 {
        0
    } else {
        nz_before(q, k - 1) + if q[k - 1] != 0 { 1int } else { 0int }
    }
}

/// The count of non-empty rows lies between zero and the number of rows
/// scanned.
pub proof fn lemma_nz_bounds(q: Seq<u8>, k: int)
    requires
        0 <= k,
    ensures
        0 <= nz_before(q, k) <= k,
    decreases k,
{
    if k > 0 {
        lemma_nz_bounds(q, k - 1);
    }
}

/// A non-empty row strictly raises the count of non-empty rows before any
/// later scan point.
pub proof fn lemma_nz_lt(q: Seq<u8>, k2: int, k: int)
    requires
        0 <= k2 < k,
        q[k2] != 0,
    ensures
        nz_before(q, k2) < nz_before(q, k),
    decreases k,
{
    if k == k2 + 1 {
    } else {
        lemma_nz_lt(q, k2, k - 1);
    }
}

/// The alignment unit of a mask row whose cells lie within `w` columns: all
/// its set bits sit in the top `w` bit positions exactly when the row's value
/// is a multiple of this unit.
pub open spec fn width_unit(w: u16) -> int {
    if w == 1 {
        128
    } else if w == 2 {
        64
    } else if w == 3 {
        32
    } else {
        16
    }
}

/// The mask row's occupied cells all lie within the leftmost `w` columns.
pub open spec fn row_fits(r: u8, w: u16) -> bool {
    r as int % width_unit(w) == 0
}

/// A well-formed orientation mask of width `w`: four rows, every row's cells
/// within the leftmost `w` columns, and the top row occupied.
pub open spec fn qube_wf(q: Seq<u8>, w: u16) -> bool {
    &&& q.len() == 4
    &&& 1 <= w <= 4
    &&& forall|k: int| 0 <= k < 4 ==> row_fits(#[trigger] q[k], w)
    &&& q[0] != 0
}

/// Every authored mask is well formed for its authored width, and its number
/// of non-empty rows is its authored height.
pub proof fn lemma_qube_wf(t: Tetromino, d: Direction)
    ensures
        qube_wf(t.spec_qube(d), t.spec_dimensions(d).0),
        nz_before(t.spec_qube(d), 4) == t.spec_dimensions(d).1,
{
    reveal_with_fuel(nz_before, 5);
}

/// The position of a shape in the weight table.
pub open spec fn spec_idx(t: Tetromino) -> int {
    match t {
        Tetromino::L => 0,
        Tetromino::J => 1,
        Tetromino::T => 2,
        Tetromino::I => 3,
        Tetromino::O => 4,
        Tetromino::S => 5,
        Tetromino::Z => 6,
    }
}

/// The shape at a position of the weight table.
pub open spec fn spec_shape_at(i: int) -> Tetromino {
    if i == 0 {
        Tetromino::L
    } else if i == 1 {
        Tetromino::J
    } else if i == 2 {
        Tetromino::T
    } else if i == 3 {
        Tetromino::I
    } else if i == 4 {
        Tetromino::O
    } else if i == 5 {
        Tetromino::S
    } else {
        Tetromino::Z
    }
}

/// Sum of the first `k` entries of a weight table.
pub open spec fn weight_sum(w: Seq<u32>, k: int) -> int
    decreases k,
{
    if k <= 0 {
        0
    } else {
        weight_sum(w, k - 1) + w[k - 1]
    }
}

/// The table index a draw value selects: scanning from entry `k`, the first
/// index whose cumulative weight range contains `r`.
pub open spec fn spec_pick_from(w: Seq<u32>, r: int, k: int) -> int
    decreases w.len() - k,
{
    if k < 0 || k >= w.len() {
        k
    } else if r < w[k] {
        k
    } else {
        spec_pick_from(w, r - w[k], k + 1)
    }
}

/// A weight table whose entries are all positive sums to at least `k` over
/// its first `k` entries.
proof fn lemma_weight_sum_lower(w: Seq<u32>, k: int)
    requires
        0 <= k <= w.len(),
        forall|i: int| 0 <= i < k ==> w[i] >= 1,
    ensures
        weight_sum(w, k) >= k,
    decreases k,
{
    if k > 0 {
        lemma_weight_sum_lower(w, k - 1);
    }
}

/// The weighted randomizer for the next piece shape: one weight per shape,
/// draws proportional to weight, with weights rebalanced after each draw to
/// bias against repeats.
pub struct TetrominoBag {
    pub weights: [u32; 7],
}

impl TetrominoBag {
    /// Every shape's weight is positive, so the bag can never run empty.
    pub open spec fn wf(&self) -> bool {
        forall|k: int| 0 <= k < 7 ==> #[trigger] self.weights@[k] >= 1
    }

    /// Every weight has room to grow by one without wrapping.
    pub open spec fn headroom(&self) -> bool {
        forall|k: int| 0 <= k < 7 ==> #[trigger] self.weights@[k] < u32::MAX
    }

    /// A fresh bag with every weight at the base unit.
    pub fn new() -> (b: TetrominoBag)
        ensures
            b.wf(),
            b.headroom(),
            forall|k: int| 0 <= k < 7 ==> #[trigger] b.weights@[k] == 1,
    {
        TetrominoBag { weights: [1, 1, 1, 1, 1, 1, 1] }
    }

    /// Total weight of the bag.
    fn sum_weights(&self) -> (s: u64)
        ensures
            s == weight_sum(self.weights@, 7),
    {
        let mut s: u64 = 0;
        let mut i: usize = 0;
        while i < 7
            invariant
                0 <= i <= 7,
                s == weight_sum(self.weights@, i as int),
                s <= i * 0xFFFF_FFFF,
            decreases 7 - i,
        {
            s = s + self.weights[i] as u64;
            i = i + 1;
        }
        s
    }

    /// The shape a draw value `r` selects: walk the weight table accumulating
    /// weights until the running sum exceeds `r`.
    pub fn select_by_weight(&self, r: u64) -> (t: Tetromino)
        requires
            r < weight_sum(self.weights@, 7),
        ensures
            t == spec_shape_at(spec_pick_from(self.weights@, r as int, 0)),
            0 <= spec_pick_from(self.weights@, r as int, 0) < 7,
    {
        let mut rest: u64 = r;
        let mut i: usize = 0;
        while i < 7
            invariant
                0 <= i <= 7,
                spec_pick_from(self.weights@, r as int, 0) == spec_pick_from(
                    self.weights@,
                    rest as int,
                    i as int,
                ),
                rest == r - weight_sum(self.weights@, i as int),
                r < weight_sum(self.weights@, 7),
            decreases 7 - i,
        {
            let w = self.weights[i];
            if rest < w as u64 {
                proof {
                    assert(spec_pick_from(self.weights@, rest as int, i as int) == i);
                }
                return if i == 0 {
                    Tetromino::L
                } else if i == 1 {
                    Tetromino::J
                } else if i == 2 {
                    Tetromino::T
                } else if i == 3 {
                    Tetromino::I
                } else if i == 4 {
                    Tetromino::O
                } else if i == 5 {
                    Tetromino::S
                } else {
                    Tetromino::Z
                };
            }
            rest = rest - w as u64;
            i = i + 1;
        }
        proof {
            assert(weight_sum(self.weights@, 7) <= r);
            assert(false);
        }
        Tetromino::L
    }

    /// Draws a shape with probability proportional to its current weight.
    pub fn get_next_tetromino(&self) -> (t: Tetromino)
        requires
            self.wf(),
        ensures
            exists|r: int|
                0 <= r < weight_sum(self.weights@, 7) && t == spec_shape_at(
                    spec_pick_from(self.weights@, r, 0),
                ),
    {
        proof {
            lemma_weight_sum_lower(self.weights@, 7);
        }
        let total = self.sum_weights();
        let r = random_u64_below(total);
        let t = self.select_by_weight(r);
        proof {
            assert(0 <= (r as int) && (r as int) < weight_sum(self.weights@, 7) && t
                == spec_shape_at(spec_pick_from(self.weights@, r as int, 0)));
        }
        t
    }

    /// Resets the drawn shape's weight to the base unit and grows every other
    /// shape's weight by one, biasing later draws away from repeats.
    pub fn update_weights(&mut self, last_drawn_tetromino: &Tetromino)
        requires
            old(self).headroom(),
        ensures
            final(self).weights@[spec_idx(*last_drawn_tetromino)] == 1,
            forall|k: int|
                0 <= k < 7 && k != spec_idx(*last_drawn_tetromino) ==>
                    #[trigger] final(self).weights@[k] == old(self).weights@[k] + 1,
            old(self).wf() ==> final(self).wf(),
    {
        let last_drawn_idx = Self::tetromino_to_idx(last_drawn_tetromino);
        let mut i: usize = 0;
        while i < 7
            invariant
                0 <= i <= 7,
                old(self).headroom(),
                last_drawn_idx == spec_idx(*last_drawn_tetromino),
                0 <= last_drawn_idx < 7,
                self.weights@.len() == 7,
                forall|k: int|
                    i <= k < 7 ==> #[trigger] self.weights@[k] == old(self).weights@[k],
                forall|k: int|
                    0 <= k < i && k != last_drawn_idx ==>
                        #[trigger] self.weights@[k] == old(self).weights@[k] + 1,
                0 <= (last_drawn_idx as int) < i ==> self.weights@[last_drawn_idx as int] == 1,
            decreases 7 - i,
        {
            if i == last_drawn_idx {
                self.weights[i] = 1;
            } else {
                let w = self.weights[i];
                self.weights[i] = w + 1;
            }
            i = i + 1;
        }
    }

    /// Composes a draw and the weight rebalance for the drawn shape.
    pub fn get_next_tetromino_and_update_weights(&mut self) -> (t: Tetromino)
        requires
            old(self).wf(),
            old(self).headroom(),
        ensures
            final(self).wf(),
            final(self).weights@[spec_idx(t)] == 1,
            forall|k: int|
                0 <= k < 7 && k != spec_idx(t) ==>
                    #[trigger] final(self).weights@[k] == old(self).weights@[k] + 1,
    {
        let next_tetromino = self.get_next_tetromino();
        self.update_weights(&next_tetromino);
        next_tetromino
    }

    /// Restores every weight to the base unit.
    pub fn reset_weights(&mut self)
        ensures
            final(self).wf(),
            final(self).headroom(),
            forall|k: int| 0 <= k < 7 ==> #[trigger] final(self).weights@[k] == 1,
    {
        self.weights = [1, 1, 1, 1, 1, 1, 1];
    }

    /// The weight-table position of a shape.
    fn tetromino_to_idx(tetromino: &Tetromino) -> (i: usize)
        ensures
            i == spec_idx(*tetromino),
            0 <= i < 7,
    {
        match tetromino {
            Tetromino::L => 0,
            Tetromino::J => 1,
            Tetromino::T => 2,
            Tetromino::I => 3,
            Tetromino::O => 4,
            Tetromino::S => 5,
            Tetromino::Z => 6,
        }
    }
}

} // verus!
