//! Entity state: the player, the enemies, the static entities and the scene
//! that owns them for one segment of a level.
use vstd::prelude::*;

use crate::geometry::BoundingBox;
use crate::map::MapTile;
use crate::units::{in_rate, in_world, SUBUNITS};

verus! {

/// A point in world space, in sub-units.
#[derive(Clone, Copy, Debug, PartialEq, Eq, Structural)]
pub struct Point {
    pub x: i64,
    pub y: i64,
}

impl Point {
    pub open spec fn wf(self) -> bool {
        in_world(self.x) && in_world(self.y)
    }
}

/// A pair of unsigned integers: a grid cell, or a position in whole world units.
#[derive(Clone, Copy, Debug, PartialEq, Eq, Structural)]
pub struct UPoint {
    pub x: u32,
    pub y: u32,
}

#[derive(Clone, Copy, Debug, PartialEq, Eq, Structural)]
pub enum Direction {
    Forward,
    Backward,
}

/// Extent of the collider of a goomba or a piranha, in sub-units.
pub const SMALL_EXTENT: i64 = 16 * SUBUNITS;

/// Height of the collider of a walking koopa, in sub-units.
pub const KOOPA_HEIGHT: i64 = 24 * SUBUNITS;

/// The archetype of an enemy with the state that the archetype needs.
#[derive(Clone, Copy, Debug, PartialEq, Eq, Structural)]
pub enum EnemyKind {
    /// Patrols between the horizontal bounds `from.x` and `to.x`.
    Goomba { from: Point, to: Point, direction: Direction },
    /// Stationary in its socket.
    Piranha,
    /// Walks until stomped; `shell` holds the time (in milliseconds) at
    /// which it withdrew into its shell.
    Koopa { direction: Direction, shell: Option<u64> },
}

#[derive(Clone, Copy, Debug, PartialEq, Eq, Structural)]
pub struct Enemy {
    pub position: Point,
    pub kind: EnemyKind,
}

impl Enemy {
    pub open spec fn wf(self) -> bool {
        &&& self.position.wf()
        &&& match self.kind {
            EnemyKind::Goomba { from, to, .. } => from.wf() && to.wf(),
            _ => true,
        }
    }

    /// The collider that the enemy presents to the player.
    pub open spec fn body(self) -> BoundingBox {
        BoundingBox {
            x: self.position.x,
            y: self.position.y,
            width: SMALL_EXTENT,
            height: match self.kind {
                EnemyKind::Koopa { .. } => KOOPA_HEIGHT,
                _ => SMALL_EXTENT,
            },
        }
    }

    pub fn is_goomba(&self) -> (r: bool)
        ensures
            r == (self.kind is Goomba),
    {
        match self.kind {
            EnemyKind::Goomba { .. } => true,
            _ => false,
        }
    }

    pub fn is_piranha(&self) -> (r: bool)
        ensures
            r == (self.kind is Piranha),
    {
        match self.kind {
            EnemyKind::Piranha => true,
            _ => false,
        }
    }

    pub fn is_koopa(&self) -> (r: bool)
        ensures
            r == (self.kind is Koopa),
    {
        match self.kind {
            EnemyKind::Koopa { .. } => true,
            _ => false,
        }
    }

    pub fn collider(&self) -> (r: BoundingBox)
        ensures
            r == self.body(),
    {
        let height = match self.kind {
            EnemyKind::Koopa { .. } => KOOPA_HEIGHT,
            _ => SMALL_EXTENT,
        };
        BoundingBox { x: self.position.x, y: self.position.y, width: SMALL_EXTENT, height }
    }
}

#[derive(Clone, Copy, Debug, PartialEq, Eq, Structural)]
pub enum Item {
    Mushroom,
    Flower,
}

#[derive(Clone, Copy, Debug, PartialEq, Eq, Structural)]
pub enum EntityKind {
    Coin,
    /// Leads to segment `id` of the level.
    Pipe { id: usize },
    Item(Item),
}

/// A static entity of a segment; its position is in whole world units.
#[derive(Clone, Copy, Debug, PartialEq, Eq, Structural)]
pub struct Entity {
    pub position: UPoint,
    pub kind: EntityKind,
}

#[derive(Clone, Copy, Debug, PartialEq, Eq, Structural)]
pub struct Player {
    pub position: Point,
    pub direction: Direction,
    pub move_velocity: i64,
    pub jump_velocity: i64,
    pub fall_velocity: i64,
    pub can_jump: bool,
}

impl Player {
    pub open spec fn wf(self) -> bool {
        &&& self.position.wf()
        &&& in_rate(self.move_velocity)
        &&& in_rate(self.jump_velocity)
        &&& in_rate(self.fall_velocity)
    }

    pub open spec fn body(self) -> BoundingBox {
        BoundingBox {
            x: self.position.x,
            y: self.position.y,
            width: SMALL_EXTENT,
            height: SMALL_EXTENT,
        }
    }

    /// A player at rest at `position`, facing forward and able to jump.
    pub fn new(position: Point) -> (r: Player)
        ensures
            r == (Player {
                position,
                direction: Direction::Forward,
                move_velocity: 0,
                jump_velocity: 0,
                fall_velocity: 0,
                can_jump: true,
            }),
    {
        Player {
            position,
            direction: Direction::Forward,
            move_velocity: 0,
            jump_velocity: 0,
            fall_velocity: 0,
            can_jump: true,
        }
    }

    pub fn collider(&self) -> (r: BoundingBox)
        ensures
            r == self.body(),
    {
        BoundingBox {
            x: self.position.x,
            y: self.position.y,
            width: SMALL_EXTENT,
            height: SMALL_EXTENT,
        }
    }
}

#[derive(Clone, Copy, Debug, PartialEq, Eq, Structural)]
pub struct Camera {
    pub position: Point,
}

impl Camera {
    pub fn new(position: Point) -> (r: Camera)
        ensures
            r.position == position,
    {
        Camera { position }
    }
}

/// Everything that one segment of a level simulates.
#[derive(Clone, Debug)]
pub struct Scene {
    pub camera: Camera,
    pub entities: Vec<Entity>,
    pub enemies: Vec<Enemy>,
    pub player: Player,
    pub tiles: Vec<MapTile>,
}

} // verus!
