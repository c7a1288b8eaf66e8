//! The playfield: a bit-packed grid with collision testing, placement and
//! line clearing.
//!
//! Each row is a `u16`: bit `9 - x` carries column `x`, and the six high bits
//! are sentinel padding that always reads as occupied, so out-of-bounds
//! columns collide without extra bounds checks.

use vstd::prelude::*;
use vstd::pervasive::VecAdditionalExecFns;
use crate::geometry::{Direction, Pos};
use crate::tetromino::{
    nz_before, qube_wf, Qube, Tetromino, QUBE_ROW_DEFAULT_X,
};

verus! {

/// Number of playable columns of the field.
pub const FIELD_WIDTH: u16 = 10;

/// Number of rows of the field.
pub const FIELD_HEIGHT: u16 = 20;

/// A row with every interior cell empty; only the sentinel padding bits are
/// set.
pub const EMPTY_ROW: u16 = 0xFC00;

/// A row counts as complete when every bit is set: all interior cells
/// occupied, padding already always set.
pub const FULL_ROW: u16 = 0xFFFF;

/// The row keeps the sentinel padding bits set.
pub open spec fn row_wf(r: u16) -> bool {
    r & EMPTY_ROW == EMPTY_ROW
}

/// A mask row's bits aligned to field column `x`: shifted left when `x` lies
/// left of the default anchor column, right otherwise.
pub open spec fn shifted_row(r: u8, x: u16) -> u16 {
    if x < QUBE_ROW_DEFAULT_X {
        (r as u16) << ((QUBE_ROW_DEFAULT_X - x) as u16)
    } else {
        (r as u16) >> ((x - QUBE_ROW_DEFAULT_X) as u16)
    }
}

/// The field-row mask of a mask row placed at column `x`: its shifted bits
/// with the sentinel padding set on top.
pub open spec fn row_mask(r: u8, x: u16) -> u16 {
    shifted_row(r, x) | EMPTY_ROW
}

/// Horizontal distance of a column from the centered spawn column.
pub open spec fn col_dist(a: u16, c: int) -> int {
    if a >= c {
        a - c
    } else {
        c - a
    }
}

/// The mask can be held at `pos`: it stays within the field's width, every
/// non-empty mask row lands on an existing field row, and no occupied mask
/// cell meets an occupied field cell.
pub open spec fn spec_can_hold(area: Seq<u16>, q: Seq<u8>, width: u16, pos: Pos) -> bool {
    &&& pos.x + width <= FIELD_WIDTH
    &&& forall|k: int|
        0 <= k < q.len() && #[trigger] q[k] != 0 ==> pos.y + nz_before(q, k) < area.len() && (
        area[pos.y + nz_before(q, k)] & row_mask(q[k], pos.x)) == EMPTY_ROW
}

/// A mask row whose cells lie within `w` columns, placed at a column where
/// the piece fits the field's width, lands entirely on interior bits; and a
/// non-empty row contributes at least one interior bit.
proof fn lemma_shifted_interior(r: u8, x: u16, w: u16)
    requires
        1 <= w <= 4,
        x + w <= 10,
        r as int % crate::tetromino::width_unit(w) == 0,
    ensures
        shifted_row(r, x) & EMPTY_ROW == 0,
        r != 0 ==> shifted_row(r, x) != 0,
{
    assert((if x < 2 {
        (r as u16) << ((2 - x) as u16)
    } else {
        (r as u16) >> ((x - 2) as u16)
    }) & 0xFC00u16 == 0 && (r != 0 ==> (if x < 2 {
        (r as u16) << ((2 - x) as u16)
    } else {
        (r as u16) >> ((x - 2) as u16)
    }) != 0)) by (bit_vector)
        requires
            1 <= w <= 4,
            x + w <= 10,
            (w == 1 ==> r % 128 == 0) && (w == 2 ==> r % 64 == 0) && (w == 3 ==> r % 32 == 0) && (
            w == 4 ==> r % 16 == 0),
    ;
}

/// Committing a non-empty interior mask row into a field row makes the same
/// collision test fail on the union.
proof fn lemma_commit_row(f: u16, s: u16)
    requires
        s & EMPTY_ROW == 0,
        s != 0,
    ensures
        ((f | (s | EMPTY_ROW)) & (s | EMPTY_ROW)) != EMPTY_ROW,
{
    assert(((f | (s | 0xFC00u16)) & (s | 0xFC00u16)) != 0xFC00) by (bit_vector)
        requires
            s & 0xFC00u16 == 0,
            s != 0,
    ;
}

/// The union of any field row with a row mask keeps the sentinel padding:
/// the mask carries the padding itself.
proof fn lemma_or_padding(f: u16, s: u16)
    ensures
        (f | (s | EMPTY_ROW)) & EMPTY_ROW == EMPTY_ROW,
{
    assert((f | (s | 0xFC00u16)) & 0xFC00u16 == 0xFC00) by (bit_vector);
}

/// An empty row collides with nothing interior: the collision test on it
/// passes for any mask whose shifted bits are interior.
proof fn lemma_empty_row_holds(s: u16)
    requires
        s & EMPTY_ROW == 0,
    ensures
        (EMPTY_ROW & (s | EMPTY_ROW)) == EMPTY_ROW,
{
    assert((0xFC00u16 & (s | 0xFC00u16)) == 0xFC00) by (bit_vector)
        requires
            s & 0xFC00u16 == 0,
    ;
}

/// The two distinguished row values keep the sentinel padding.
proof fn lemma_base_rows()
    ensures
        row_wf(EMPTY_ROW),
        row_wf(FULL_ROW),
{
    assert(0xFC00u16 & 0xFC00u16 == 0xFC00 && 0xFFFFu16 & 0xFC00u16 == 0xFC00) by (bit_vector);
}


/// The first row at or after `i` that is complete, or the row count when no
/// row from `i` on is complete.
pub open spec fn run_start(area: Seq<u16>, i: int) -> int
    decreases area.len() - i,
{
    if i < 0 || i >= area.len() {
        area.len() as int
    } else if area[i] == FULL_ROW {
        i
    } else {
        run_start(area, i + 1)
    }
}

/// The length of the run of consecutive complete rows starting at `i`.
pub open spec fn run_len(area: Seq<u16>, i: int) -> int
    decreases area.len() - i,
{
    if i < 0 || i >= area.len() || area[i] != FULL_ROW {
        0
    } else {
        1 + run_len(area, i + 1)
    }
}

/// How many rows one clearing pass removes: the length of the first
/// contiguous run of complete rows, scanning from the top.
pub open spec fn cleared_count(area: Seq<u16>) -> int {
    run_len(area, run_start(area, 0))
}

/// Evaluates `run_start` from a scan's findings: all rows before `s` are
/// incomplete, and `s` is complete when it exists.
proof fn lemma_run_start_eval(area: Seq<u16>, i: int, s: int)
    requires
        0 <= i <= s <= area.len(),
        forall|j: int| i <= j < s ==> area[j] != FULL_ROW,
        s < area.len() ==> area[s] == FULL_ROW,
    ensures
        s < area.len() ==> run_start(area, i) == s,
        s == area.len() ==> run_start(area, i) == area.len(),
    decreases s - i,
{
    if i < s {
        lemma_run_start_eval(area, i + 1, s);
    }
}

/// Evaluates `run_len` from a scan's findings: `c` consecutive complete rows
/// from `s`, ended by an incomplete row or the bottom of the field.
proof fn lemma_run_len_eval(area: Seq<u16>, s: int, c: int)
    requires
        0 <= s,
        0 <= c,
        s + c <= area.len(),
        forall|j: int| s <= j < s + c ==> area[j] == FULL_ROW,
        s + c < area.len() ==> area[s + c] != FULL_ROW,
    ensures
        run_len(area, s) == c,
    decreases c,
{
    if c > 0 {
        lemma_run_len_eval(area, s + 1, c - 1);
    }
}


/// The start of the run stays within the field, and every row before it is
/// incomplete.
proof fn lemma_run_start_bounds(area: Seq<u16>, i: int)
    requires
        0 <= i <= area.len(),
    ensures
        i <= run_start(area, i) <= area.len(),
        forall|j: int| i <= j < run_start(area, i) ==> area[j] != FULL_ROW,
    decreases area.len() - i,
{
    if i < area.len() && area[i] != FULL_ROW {
        lemma_run_start_bounds(area, i + 1);
    }
}

/// The run of complete rows stays within the field.
proof fn lemma_run_len_bounds(area: Seq<u16>, i: int)
    requires
        0 <= i <= area.len(),
    ensures
        0 <= run_len(area, i) <= area.len() - i,
    decreases area.len() - i,
{
    if i < area.len() && area[i] == FULL_ROW {
        lemma_run_len_bounds(area, i + 1);
    }
}

/// A well-formed piece mask can be held anywhere on an empty field where it
/// fits the field's width and its bounding box fits the field's height.
pub proof fn lemma_empty_field_can_hold(area: Seq<u16>, q: Seq<u8>, w: u16, pos: Pos)
    requires
        area.len() == FIELD_HEIGHT,
        forall|i: int| 0 <= i < area.len() ==> #[trigger] area[i] == EMPTY_ROW,
        qube_wf(q, w),
        pos.x + w <= FIELD_WIDTH,
        pos.y + 4 <= FIELD_HEIGHT,
    ensures
        spec_can_hold(area, q, w, pos),
{
    assert forall|k: int| 0 <= k < q.len() && #[trigger] q[k] != 0 implies pos.y + nz_before(q, k)
        < area.len() && (area[pos.y + nz_before(q, k)] & row_mask(q[k], pos.x)) == EMPTY_ROW by {
        crate::tetromino::lemma_nz_bounds(q, k);
        lemma_shifted_interior(q[k], pos.x, w);
        lemma_empty_row_holds(shifted_row(q[k], pos.x));
    }
}

/// Once a piece whose hold test succeeded is committed, the same hold test
/// fails: the cells the mask occupies are then occupied, so the piece cannot
/// be placed again where it just landed.
pub proof fn lemma_place_excludes_re_place(
    pre: Seq<u16>,
    post: Seq<u16>,
    q: Seq<u8>,
    w: u16,
    pos: Pos,
)
    requires
        qube_wf(q, w),
        spec_can_hold(pre, q, w, pos),
        post.len() == pre.len(),
        forall|k: int|
            0 <= k < 4 && #[trigger] q[k] != 0 ==> post[pos.y + nz_before(q, k)] == (pre[pos.y
                + nz_before(q, k)] | row_mask(q[k], pos.x)),
    ensures
        !spec_can_hold(post, q, w, pos),
{
    assert(q[0] != 0);
    assert(nz_before(q, 0) == 0);
    let f = pre[pos.y as int];
    lemma_shifted_interior(q[0], pos.x, w);
    lemma_commit_row(f, shifted_row(q[0], pos.x));
    assert(post[pos.y as int] == (f | row_mask(q[0], pos.x)));
    assert((post[pos.y as int] & row_mask(q[0], pos.x)) != EMPTY_ROW);
}

/// Clearing is idempotent when every complete row lay in the first
/// contiguous run: right after such a clearing pass, a second pass finds no
/// complete row and clears nothing.
pub proof fn lemma_clear_twice_clears_nothing(pre: Seq<u16>, post: Seq<u16>)
    requires
        pre.len() == FIELD_HEIGHT,
        post.len() == FIELD_HEIGHT,
        forall|i: int|
            run_start(pre, 0) + cleared_count(pre) <= i < pre.len() ==> pre[i] != FULL_ROW,
        forall|i: int| 0 <= i < cleared_count(pre) ==> post[i] == EMPTY_ROW,
        forall|i: int|
            cleared_count(pre) <= i <= run_start(pre, 0) + cleared_count(pre) - 1 ==> post[i]
                == pre[i - cleared_count(pre)],
        forall|i: int|
            run_start(pre, 0) + cleared_count(pre) - 1 < i < FIELD_HEIGHT ==> post[i] == pre[i],
    ensures
        cleared_count(post) == 0,
{
    let s = run_start(pre, 0);
    let n = cleared_count(pre);
    lemma_run_start_bounds(pre, 0);
    lemma_run_len_bounds(pre, s);
    assert forall|i: int| 0 <= i < post.len() implies post[i] != FULL_ROW by {
        if i < n {
        } else if i <= s + n - 1 {
            assert(post[i] == pre[i - n]);
            assert(i - n < s);
        } else {
            assert(post[i] == pre[i]);
        }
    }
    lemma_run_start_eval(post, 0, post.len() as int);
}

/// The playfield.
pub struct Field {
    pub width: u16,
    pub height: u16,
    pub area: Vec<u16>,
}

impl Field {
    /// The field's representation invariant: the authored dimensions, one
    /// stored row per field row, and every row keeping its sentinel padding.
    pub open spec fn wf(&self) -> bool {
        &&& self.width == FIELD_WIDTH
        &&& self.height == FIELD_HEIGHT
        &&& self.area@.len() == FIELD_HEIGHT
        &&& forall|i: int| 0 <= i < self.area@.len() ==> row_wf(#[trigger] self.area@[i])
    }

    /// Every interior cell of the field is empty.
    pub open spec fn is_empty(&self) -> bool {
        forall|i: int| 0 <= i < self.area@.len() ==> #[trigger] self.area@[i] == EMPTY_ROW
    }

    /// A fresh, empty field of the authored dimensions.
    pub fn new() -> (f: Field)
        ensures
            f.wf(),
            f.is_empty(),
            f.width == FIELD_WIDTH,
            f.height == FIELD_HEIGHT,
    {
        let mut area: Vec<u16> = Vec::new();
        let mut i: usize = 0;
        while i < FIELD_HEIGHT as usize
            invariant
                0 <= i <= FIELD_HEIGHT,
                area@.len() == i,
                forall|j: int| 0 <= j < i ==> #[trigger] area@[j] == EMPTY_ROW,
            decreases FIELD_HEIGHT - i,
        {
            area.push(EMPTY_ROW);
            i = i + 1;
        }
        proof {
            lemma_base_rows();
        }
        Field { width: FIELD_WIDTH, height: FIELD_HEIGHT, area }
    }

    /// Empties every row of the field again.
    pub fn reset(&mut self)
        ensures
            final(self).wf(),
            final(self).is_empty(),
    {
        let f = Field::new();
        self.width = f.width;
        self.height = f.height;
        self.area = f.area;
    }


    /// The spawn position for a piece: the centered column of the top row
    /// when legal, otherwise the first legal top-row column found scanning
    /// outward from the center, alternately right then left — so the legal
    /// column nearest the center wins, with ties going to the right. `None`
    /// exactly when no column across the field width can hold the piece at
    /// the top.
    pub fn get_start_pos(&self, tetromino: &Tetromino, direction: &Direction) -> (r: Option<Pos>)
        requires
            self.width == FIELD_WIDTH,
        ensures
            match r {
                Some(p) => ({
                    let q = tetromino.spec_qube(*direction);
                    let w = tetromino.spec_dimensions(*direction).0;
                    let c = (FIELD_WIDTH - w) / 2;
                    &&& spec_can_hold(self.area@, q, w, p)
                    &&& p.y == 0
                    &&& forall|x: u16|
                        x + w <= FIELD_WIDTH && spec_can_hold(
                            self.area@,
                            q,
                            w,
                            (Pos { x, y: 0u16 }),
                        ) ==> col_dist(p.x, c) < col_dist(x, c) || (col_dist(p.x, c) == col_dist(
                            x,
                            c,
                        ) && p.x >= x)
                }),
                None => forall|x: u16|
                    x + tetromino.spec_dimensions(*direction).0 <= FIELD_WIDTH
                        ==> !spec_can_hold(
                        self.area@,
                        tetromino.spec_qube(*direction),
                        tetromino.spec_dimensions(*direction).0,
                        (Pos { x, y: 0u16 }),
                    ),
            },
    {
        let (width, _height) = tetromino.dimensions(direction);
        proof {
            assert(1 <= width <= 4);
        }
        let initial_x = (self.width - width) / 2;
        let mut pos = match Pos::new(initial_x, 0) {
            Some(p) => p,
            None => Pos::zero(),
        };
        let qube = tetromino.get_cube_by_direction(direction);

        if self.can_hold((qube, width), &pos) {
            proof {
                assert forall|x: u16|
                    x + width <= FIELD_WIDTH && spec_can_hold(
                        self.area@,
                        qube@,
                        width,
                        (Pos { x, y: 0u16 }),
                    ) implies col_dist(pos.x, initial_x as int) < col_dist(x, initial_x as int)
                    || (col_dist(pos.x, initial_x as int) == col_dist(x, initial_x as int) && pos.x
                    >= x) by {
                    assert(col_dist(pos.x, initial_x as int) == 0);
                }
            }
            return Some(pos);
        }
        let mut i: u16 = 2;
        while i <= self.width
            invariant
                self.width == FIELD_WIDTH,
                qube@ == tetromino.spec_qube(*direction),
                width == tetromino.spec_dimensions(*direction).0,
                1 <= width <= 4,
                initial_x == (FIELD_WIDTH - width) / 2,
                pos.y == 0,
                2 <= i <= FIELD_WIDTH + 1,
                forall|x: u16|
                    initial_x - (i - 2) / 2 <= x <= initial_x + (i - 1) / 2
                        ==> !spec_can_hold(
                        self.area@,
                        qube@,
                        width,
                        (Pos { x, y: 0u16 }),
                    ),
            decreases FIELD_WIDTH + 1 - i,
        {
            let half = i / 2;
            pos.x = if i % 2 == 0 {
                initial_x + half
            } else {
                if initial_x >= half {
                    initial_x - half
                } else {
                    0
                }
            };

            if self.can_hold((qube, width), &pos) {
                proof {
                    let c = initial_x as int;
                    let t = half as int;
                    if i % 2 == 0 {
                        assert((i - 1) as int / 2 == t - 1);
                        assert((i - 2) as int / 2 == t - 1);
                        assert(pos.x == c + t);
                    } else {
                        assert((i - 1) as int / 2 == t);
                        assert((i - 2) as int / 2 == t - 1);
                        if initial_x < half {
                            // The clamped left probe re-checks column 0,
                            // which the scan has already rejected.
                            assert(!spec_can_hold(
                                self.area@,
                                qube@,
                                width,
                                (Pos { x: 0u16, y: 0u16 }),
                            ));
                            assert(false);
                        }
                        assert(pos.x == c - t);
                    }
                    assert forall|x: u16|
                        x + width <= FIELD_WIDTH && spec_can_hold(
                            self.area@,
                            qube@,
                            width,
                            (Pos { x, y: 0u16 }),
                        ) implies col_dist(pos.x, c) < col_dist(x, c) || (col_dist(pos.x, c)
                        == col_dist(x, c) && pos.x >= x) by {
                        if c - (t - 1) <= x as int <= c + t - 1 {
                            assert(!spec_can_hold(
                                self.area@,
                                qube@,
                                width,
                                (Pos { x, y: 0u16 }),
                            ));
                        } else if i % 2 != 0 && x as int == c + t {
                            assert(!spec_can_hold(
                                self.area@,
                                qube@,
                                width,
                                (Pos { x, y: 0u16 }),
                            ));
                        }
                    }
                }
                return Some(pos);
            }
            i = i + 1;
        }
        proof {
            assert(initial_x <= 4);
            assert(initial_x + 5 >= FIELD_WIDTH - width);
        }
        None
    }

    /// The field-row mask of one mask row placed at column `pos_x`.
    fn get_cube_row_mask(row: u8, pos_x: u16) -> (m: u16)
        requires
            pos_x <= FIELD_WIDTH,
        ensures
            m == row_mask(row, pos_x),
    {
        (if pos_x < QUBE_ROW_DEFAULT_X {
            (row as u16) << (QUBE_ROW_DEFAULT_X - pos_x)
        } else {
            (row as u16) >> (pos_x - QUBE_ROW_DEFAULT_X)
        }) | EMPTY_ROW
    }

    /// Collision test: can the mask (with its bounding-box width) be held at
    /// `pos`? Empty mask rows carry no collision information and are
    /// skipped; out-of-range rows and occupied cells both reject.
    pub fn can_hold(&self, qube_with_width: (Qube, u16), pos: &Pos) -> (r: bool)
        requires
            self.width == FIELD_WIDTH,
        ensures
            r == spec_can_hold(self.area@, qube_with_width.0@, qube_with_width.1, *pos),
    {
        let (qube, width) = qube_with_width;
        if (width as u32) + (pos.x as u32) > (self.width as u32) {
            return false;
        }
        let mut k: usize = 0;
        let mut j: usize = 0;
        while k < 4
            invariant
                0 <= k <= 4,
                qube@.len() == 4,
                qube@ == qube_with_width.0@,
                width == qube_with_width.1,
                j == nz_before(qube@, k as int),
                0 <= j <= k,
                pos.x + width <= FIELD_WIDTH,
                forall|k2: int|
                    0 <= k2 < k && #[trigger] qube@[k2] != 0 ==> pos.y + nz_before(qube@, k2)
                        < self.area@.len() && (self.area@[pos.y + nz_before(qube@, k2)] & row_mask(
                        qube@[k2],
                        pos.x,
                    )) == EMPTY_ROW,
            decreases 4 - k,
        {
            let row = qube[k];
            if row != 0 {
                let qube_row_mask = Self::get_cube_row_mask(row, pos.x);
                let idx = pos.y as usize + j;
                if idx >= self.area.len() {
                    proof {
                        assert(qube@[k as int] != 0 && !(pos.y + nz_before(qube@, k as int)
                            < self.area@.len()));
                    }
                    return false;
                }
                if (self.area[idx] & qube_row_mask) != EMPTY_ROW {
                    proof {
                        assert(qube@[k as int] != 0 && (self.area@[pos.y + nz_before(
                            qube@,
                            k as int,
                        )] & row_mask(qube@[k as int], pos.x)) != EMPTY_ROW);
                    }
                    return false;
                }
                j = j + 1;
            }
            k = k + 1;
        }
        true
    }

    /// Commits the mask into the field at `pos`: every occupied mask cell
    /// sets its field cell (cells are set, never cleared). Fails, changing
    /// nothing, when the mask cannot be held there.
    pub fn place(&mut self, qube_with_width: (Qube, u16), pos: &Pos) -> (r: Result<
        (),
        &'static str,
    >)
        requires
            old(self).width == FIELD_WIDTH,
        ensures
            final(self).width == old(self).width,
            final(self).height == old(self).height,
            final(self).area@.len() == old(self).area@.len(),
            !spec_can_hold(old(self).area@, qube_with_width.0@, qube_with_width.1, *pos) ==> (r
                matches Err(m) && m@ == "Cannot place qube at the given position"@)
                && final(self).area@ == old(self).area@,
            spec_can_hold(old(self).area@, qube_with_width.0@, qube_with_width.1, *pos) ==> r is Ok
                && (forall|k: int|
                0 <= k < 4 && #[trigger] qube_with_width.0@[k] != 0 ==> final(self).area@[pos.y
                    + nz_before(qube_with_width.0@, k)] == (old(self).area@[pos.y + nz_before(
                    qube_with_width.0@,
                    k,
                )] | row_mask(qube_with_width.0@[k], pos.x))) && (forall|i: int|
                0 <= i < old(self).area@.len() && !(pos.y <= i < pos.y + nz_before(
                    qube_with_width.0@,
                    4,
                )) ==> final(self).area@[i] == old(self).area@[i]),
            old(self).wf() ==> final(self).wf(),
    {
        let (qube, width) = qube_with_width;
        if !self.can_hold((qube, width), pos) {
            return Err("Cannot place qube at the given position");
        }
        let mut k: usize = 0;
        let mut j: usize = 0;
        while k < 4
            invariant
                0 <= k <= 4,
                0 <= j <= k,
                qube@.len() == 4,
                qube@ == qube_with_width.0@,
                width == qube_with_width.1,
                j == nz_before(qube@, k as int),
                self.width == old(self).width,
                self.height == old(self).height,
                self.area@.len() == old(self).area@.len(),
                spec_can_hold(old(self).area@, qube@, width, *pos),
                forall|k2: int|
                    0 <= k2 < k && #[trigger] qube@[k2] != 0 ==> self.area@[pos.y + nz_before(
                        qube@,
                        k2,
                    )] == (old(self).area@[pos.y + nz_before(qube@, k2)] | row_mask(
                        qube@[k2],
                        pos.x,
                    )),
                forall|i: int|
                    0 <= i < self.area@.len() && !(pos.y <= i < pos.y + j) ==> #[trigger] self.area@[i]
                        == old(self).area@[i],
                forall|i: int|
                    0 <= i < self.area@.len() ==> row_wf(#[trigger] self.area@[i]) || self.area@[i]
                        == old(self).area@[i],
            decreases 4 - k,
        {
            let row = qube[k];
            if row != 0 {
                proof {
                    assert(pos.y + nz_before(qube@, k as int) < old(self).area@.len());
                    assert forall|k2: int| 0 <= k2 < k && #[trigger] qube@[k2] != 0 implies
                        nz_before(qube@, k2) < j by {
                        crate::tetromino::lemma_nz_lt(qube@, k2, k as int);
                    }
                    lemma_or_padding(self.area@[pos.y + j], shifted_row(row, pos.x));
                }
                let qube_row_mask = Self::get_cube_row_mask(row, pos.x);
                let idx = pos.y as usize + j;
                let fr = self.area[idx];
                self.area.set(idx, fr | qube_row_mask);
                j = j + 1;
            }
            k = k + 1;
        }
        Ok(())
    }

    /// Scans top-to-bottom for the first contiguous run of complete rows and
    /// reports the index of that run's last row together with the run's
    /// length; with no complete row, the bottom row's index and zero.
    pub(crate) fn get_completed_rows(&self) -> (r: (u16, u16))
        requires
            self.height == FIELD_HEIGHT,
            self.area@.len() == FIELD_HEIGHT,
        ensures
            r.1 == cleared_count(self.area@),
            0 <= r.1 <= FIELD_HEIGHT,
            r.0 < FIELD_HEIGHT,
            r.1 > 0 ==> r.0 == run_start(self.area@, 0) + r.1 - 1 && r.1 <= r.0 + 1,
            r.1 == 0 ==> r.0 == FIELD_HEIGHT - 1,
    {
        let mut cleared_lines: u16 = 0;
        let mut y: usize = 0;
        while y < self.area.len()
            invariant
                self.area@.len() == FIELD_HEIGHT,
                0 <= y <= FIELD_HEIGHT,
                cleared_lines <= y,
                cleared_lines > 0 ==> (forall|j: int|
                    0 <= j < y - cleared_lines ==> self.area@[j] != FULL_ROW) && (forall|j: int|
                    y - cleared_lines <= j < y ==> self.area@[j] == FULL_ROW),
                cleared_lines == 0 ==> forall|j: int| 0 <= j < y ==> self.area@[j] != FULL_ROW,
            decreases self.area@.len() - y,
        {
            let row = self.area[y];
            if row == FULL_ROW {
                cleared_lines = cleared_lines + 1;
            } else if cleared_lines > 0 {
                proof {
                    lemma_run_start_eval(self.area@, 0, y - cleared_lines);
                    lemma_run_len_eval(self.area@, y - cleared_lines, cleared_lines as int);
                }
                return ((y - 1) as u16, cleared_lines);
            }
            y = y + 1;
        }
        proof {
            lemma_run_start_eval(self.area@, 0, FIELD_HEIGHT - cleared_lines);
            lemma_run_len_eval(
                self.area@,
                FIELD_HEIGHT - cleared_lines,
                cleared_lines as int,
            );
        }
        (FIELD_HEIGHT - 1, cleared_lines)
    }

    /// Drops every surviving row above the cleared run down by `rows`, then
    /// empties the top `rows` rows.
    fn move_all_rows_down(&mut self, last_row: u16, rows: u16)
        requires
            old(self).area@.len() == FIELD_HEIGHT,
            1 <= rows,
            rows <= last_row + 1,
            last_row < FIELD_HEIGHT,
        ensures
            final(self).width == old(self).width,
            final(self).height == old(self).height,
            final(self).area@.len() == FIELD_HEIGHT,
            forall|i: int| 0 <= i < rows ==> final(self).area@[i] == EMPTY_ROW,
            forall|i: int|
                rows <= i <= last_row ==> final(self).area@[i] == old(self).area@[i - rows],
            forall|i: int|
                last_row < i < FIELD_HEIGHT ==> final(self).area@[i] == old(self).area@[i],
    {
        let mut y: usize = last_row as usize + 1;
        while y > rows as usize
            invariant
                old(self).area@.len() == FIELD_HEIGHT,
                rows as usize <= y <= last_row as usize + 1,
                1 <= rows,
                last_row < FIELD_HEIGHT,
                self.width == old(self).width,
                self.height == old(self).height,
                self.area@.len() == FIELD_HEIGHT,
                forall|i: int| y <= i <= last_row ==> self.area@[i] == old(self).area@[i - rows],
                forall|i: int| 0 <= i < y ==> self.area@[i] == old(self).area@[i],
                forall|i: int|
                    last_row < i < FIELD_HEIGHT ==> self.area@[i] == old(self).area@[i],
            decreases y,
        {
            y = y - 1;
            let v = self.area[y - rows as usize];
            self.area.set(y, v);
        }
        let mut i: usize = 0;
        while i < rows as usize
            invariant
                old(self).area@.len() == FIELD_HEIGHT,
                0 <= i <= rows,
                rows <= last_row + 1,
                last_row < FIELD_HEIGHT,
                self.width == old(self).width,
                self.height == old(self).height,
                self.area@.len() == FIELD_HEIGHT,
                forall|j: int| 0 <= j < i ==> self.area@[j] == EMPTY_ROW,
                forall|j: int|
                    rows <= j <= last_row ==> self.area@[j] == old(self).area@[j - rows],
                forall|j: int|
                    last_row < j < FIELD_HEIGHT ==> self.area@[j] == old(self).area@[j],
            decreases rows - i,
        {
            self.area.set(i, EMPTY_ROW);
            i = i + 1;
        }
    }

    /// Clears the first contiguous run of complete rows: the run's rows
    /// vanish, every surviving row above the run drops by the run's length,
    /// that many fresh empty rows enter at the top, and the count of cleared
    /// rows is returned. Complete rows separated from the first run by an
    /// incomplete row are left for a later pass.
    pub fn clear_completed_lines(&mut self) -> (n: u16)
        requires
            old(self).height == FIELD_HEIGHT,
            old(self).area@.len() == FIELD_HEIGHT,
        ensures
            final(self).width == old(self).width,
            final(self).height == old(self).height,
            final(self).area@.len() == FIELD_HEIGHT,
            n == cleared_count(old(self).area@),
            n <= FIELD_HEIGHT,
            n == 0 ==> final(self).area@ == old(self).area@,
            n > 0 ==> (forall|i: int| 0 <= i < n ==> final(self).area@[i] == EMPTY_ROW) && (
            forall|i: int|
                n <= i <= run_start(old(self).area@, 0) + n - 1 ==> final(self).area@[i] == old(
                    self,
                ).area@[i - n]) && (forall|i: int|
                run_start(old(self).area@, 0) + n - 1 < i < FIELD_HEIGHT ==> final(self).area@[i]
                    == old(self).area@[i]),
            old(self).wf() ==> final(self).wf(),
    {
        let (last_cleared_line, cleared_lines) = self.get_completed_rows();
        if cleared_lines > 0 {
            self.move_all_rows_down(last_cleared_line, cleared_lines);
            proof {
                lemma_base_rows();
            }
        }
        cleared_lines
    }
}

} // verus!


