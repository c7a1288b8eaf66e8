//! The active falling piece.

use vstd::prelude::*;
use crate::geometry::{Direction, Pos};
use crate::tetromino::{Qube, Tetromino};

verus! {

/// The piece currently in play: shape, facing, field position, and the
/// resolved orientation mask of the current facing, kept for rendering.
///
/// The object itself enforces no spatial legality: callers validate moves
/// and rotations against the field first, which is the sole authority.
pub struct Object {
    pub tetromino: Tetromino,
    pub direction: Direction,
    pub pos: Pos,
    pub qube: Qube,
}

impl Object {
    /// The cached mask is the authored mask of the shape and facing.
    pub open spec fn wf(&self) -> bool {
        self.qube@ == self.tetromino.spec_qube(self.direction)
    }

    /// A fresh piece of the given shape and facing at `pos`.
    pub fn new(tetromino: Tetromino, direction: Direction, pos: Pos) -> (o: Object)
        ensures
            o.wf(),
            o.tetromino == tetromino,
            o.direction == direction,
            o.pos == pos,
    {
        let qube = tetromino.get_cube_by_direction(&direction);
        Object { tetromino, direction, pos, qube }
    }

    /// The piece's current facing.
    pub fn get_direction(&self) -> (d: Direction)
        ensures
            d == self.direction,
    {
        self.direction
    }

    /// The piece's shape.
    pub fn get_type(&self) -> (t: Tetromino)
        ensures
            t == self.tetromino,
    {
        self.tetromino
    }

    /// The piece's position in the field.
    pub fn get_position(&self) -> (p: Pos)
        ensures
            p == self.pos,
    {
        self.pos
    }

    /// The piece's current mask together with its bounding-box width.
    pub fn get_qube_with_width(&self) -> (r: (Qube, u16))
        ensures
            r.0 == self.qube,
            r.1 == self.tetromino.spec_dimensions(self.direction).0,
    {
        (self.qube, self.tetromino.dimensions(&self.direction).0)
    }

    /// Advances the facing one step in the cycle and recomputes the mask,
    /// unconditionally: the caller validates legality against the field
    /// before rotating.
    pub fn rotate(&mut self)
        ensures
            final(self).tetromino == old(self).tetromino,
            final(self).pos == old(self).pos,
            final(self).direction == old(self).direction.spec_rotate(),
            final(self).wf(),
    {
        self.direction = self.direction.copy_rotate();
        self.qube = self.tetromino.get_cube_by_direction(&self.direction);
    }
}

} // verus!
