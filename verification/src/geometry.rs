//! Facings and field positions of the falling piece.

use vstd::prelude::*;
use crate::rng::random_u64_below;

verus! {

/// Rotational state of a piece. The four facings form a cycle:
/// Up -> Right -> Down -> Left -> Up.
#[derive(Clone, Copy, Debug, PartialEq, Eq, Structural)]
pub enum Direction {
    Up,
    Right,
    Down,
    Left,
}

impl Direction {
    /// The next facing in the rotation cycle.
    pub open spec fn spec_rotate(self) -> Direction {
        match self {
            Direction::Up => Direction::Right,
            Direction::Right => Direction::Down,
            Direction::Down => Direction::Left,
            Direction::Left => Direction::Up,
        }
    }

    /// Returns the next facing in the cycle without changing `self`.
    pub fn copy_rotate(&self) -> (d: Direction)
        ensures
            d == self.spec_rotate(),
    {
        match self {
            Direction::Up => Direction::Right,
            Direction::Right => Direction::Down,
            Direction::Down => Direction::Left,
            Direction::Left => Direction::Up,
        }
    }

    /// Draws one of the four facings at random.
    pub fn random() -> Direction {
        let r = random_u64_below(4);
        if r == 0 {
            Direction::Up
        } else if r == 1 {
            Direction::Right
        } else if r == 2 {
            Direction::Down
        } else {
            Direction::Left
        }
    }
}

/// Four rotation steps return a facing to itself: the facing cycle has
/// length four, so rotating a piece four times restores its mask.
pub proof fn lemma_rotation_cycle(d: Direction)
    ensures
        d.spec_rotate().spec_rotate().spec_rotate().spec_rotate() == d,
{
}

/// A position in the field: `x` is the column offset of the orientation
/// mask's origin, `y` the row offset; `y` grows downward.
#[derive(Clone, Copy, Debug, PartialEq, Eq, Structural)]
pub struct Pos {
    pub x: u16,
    pub y: u16,
}

/// A coordinate delta clamped into the range a `u16` coordinate can hold.
pub open spec fn clamped_coord(v: int) -> u16 {
    if v < 0 {
        0u16
    } else if v > 0xFFFF {
        0xFFFFu16
    } else {
        v as u16
    }
}

impl Pos {
    /// A position inside the field proper, or `None` when the coordinates lie
    /// outside the `FIELD_WIDTH x FIELD_HEIGHT` grid.
    pub fn new(x: u16, y: u16) -> (p: Option<Pos>)
        ensures
            x < 10 && y < 20 ==> p == Some(Pos { x, y }),
            !(x < 10 && y < 20) ==> p is None,
    {
        if x < 10 && y < 20 {
            Some(Pos { x, y })
        } else {
            None
        }
    }

    /// The origin position.
    pub fn zero() -> (p: Pos)
        ensures
            p == (Pos { x: 0u16, y: 0u16 }),
    {
        Pos { x: 0, y: 0 }
    }

    /// A copy of `self` with `x` shifted by `dx`, clamped at the coordinate
    /// range's ends.
    pub fn copy_mod_x(&self, dx: i32) -> (p: Pos)
        ensures
            p.x == clamped_coord(self.x + dx),
            p.y == self.y,
    {
        let v: i64 = self.x as i64 + dx as i64;
        let x: u16 = if v < 0 {
            0
        } else if v > 0xFFFF {
            0xFFFF
        } else {
            v as u16
        };
        Pos { x, y: self.y }
    }

    /// A copy of `self` with `y` shifted by `dy`, clamped at the coordinate
    /// range's ends.
    pub fn copy_mod_y(&self, dy: i32) -> (p: Pos)
        ensures
            p.x == self.x,
            p.y == clamped_coord(self.y + dy),
    {
        let v: i64 = self.y as i64 + dy as i64;
        let y: u16 = if v < 0 {
            0
        } else if v > 0xFFFF {
            0xFFFF
        } else {
            v as u16
        };
        Pos { x: self.x, y }
    }

    /// Shifts `x` by `dx` in place, clamped at the coordinate range's ends.
    pub fn mod_x(&mut self, dx: i32)
        ensures
            final(self).x == clamped_coord(old(self).x + dx),
            final(self).y == old(self).y,
    {
        let p = self.copy_mod_x(dx);
        self.x = p.x;
    }

    /// Shifts `y` by `dy` in place, clamped at the coordinate range's ends.
    pub fn mod_y(&mut self, dy: i32)
        ensures
            final(self).x == old(self).x,
            final(self).y == clamped_coord(old(self).y + dy),
    {
        let p = self.copy_mod_y(dy);
        self.y = p.y;
    }
}

} // verus!
