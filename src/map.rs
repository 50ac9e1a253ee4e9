//! Tiles of the level grid.
use vstd::prelude::*;

use crate::geometry::BoundingBox;
use crate::scene::{Item, UPoint};
use crate::units::TILE_SIZE;

verus! {

#[derive(Clone, Copy, Debug, PartialEq, Eq, Structural)]
pub enum Block {
    Ground,
    Wall,
    WallInside,
    Stone,
    Question(Option<Item>),
}

/// One solid tile at a cell of the grid.
#[derive(Clone, Copy, Debug, PartialEq, Eq, Structural)]
pub struct MapTile {
    pub block: Block,
    pub coordinate: UPoint,
}

/// The world-space box that the cell `c` covers.
pub open spec fn cell_box(c: UPoint) -> BoundingBox {
    BoundingBox {
        x: (c.x * TILE_SIZE) as i64,
        y: (c.y * TILE_SIZE) as i64,
        width: TILE_SIZE,
        height: TILE_SIZE,
    }
}

impl MapTile {
    /// The tile's collider, in world space.
    pub fn collider(&self) -> (r: BoundingBox)
        ensures
            r == cell_box(self.coordinate),
            r.wf(),
    {
        cell_collider(self.coordinate)
    }
}

/// The world-space box that the cell `c` covers.
pub fn cell_collider(c: UPoint) -> (r: BoundingBox)
    ensures
        r == cell_box(c),
        r.wf(),
{
    BoundingBox {
        x: c.x as i64 * TILE_SIZE,
        y: c.y as i64 * TILE_SIZE,
        width: TILE_SIZE,
        height: TILE_SIZE,
    }
}

/// Pipe pieces of the editor's block palette.
#[derive(Clone, Copy, Debug, PartialEq, Eq, Structural)]
pub enum Pipe {
    TopLeft,
    TopRight,
    Left,
    Right,
}

} // verus!
