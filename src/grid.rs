//! Proximity queries of the tile grid: the ground below a body and the
//! tile beside it. Each is a pure function of the tiles given and does not
//! depend on their order.
use vstd::prelude::*;

use crate::geometry::BoundingBox;
use crate::map::{cell_box, cell_collider, MapTile};
use crate::scene::{Point, Scene, UPoint};
use crate::units::{cell_of, in_span, position_to_coordinate, SUBUNITS};

verus! {

/// Some tile of `tiles` sits at the cell `c`.
pub open spec fn has_tile(tiles: Seq<MapTile>, c: UPoint) -> bool {
    exists|i: int| 0 <= i < tiles.len() && (#[trigger] tiles[i]).coordinate == c
}

pub open spec fn cell(col: int, row: int) -> UPoint {
    UPoint { x: col as u32, y: row as u32 }
}

/// Two boxes side by side merged into one: the widths add up, the taller
/// height is kept.
pub open spec fn merged(west: BoundingBox, east: BoundingBox) -> BoundingBox {
    BoundingBox {
        x: west.x,
        y: west.y,
        width: (west.width + east.width) as i64,
        height: if west.height >= east.height {
            west.height
        } else {
            east.height
        },
    }
}

/// The single ground contact formed by the tiles at the cells
/// (`col - 1`, `row`) and (`col`, `row`): one tile's box, or both merged.
pub open spec fn ground_at(tiles: Seq<MapTile>, col: int, row: int) -> Option<BoundingBox> {
    let west = col >= 1 && has_tile(tiles, cell(col - 1, row));
    let east = has_tile(tiles, cell(col, row));
    if west && east {
        Some(merged(cell_box(cell(col - 1, row)), cell_box(cell(col, row))))
    } else if west {
        Some(cell_box(cell(col - 1, row)))
    } else if east {
        Some(cell_box(cell(col, row)))
    } else {
        None
    }
}

/// Ground below a body of `size` whole world units at `position`: the row
/// that its bottom edge reaches, at the column of its right edge and the
/// column before it.
pub open spec fn below_spec(position: Point, size: UPoint, tiles: Seq<MapTile>) -> Option<
    BoundingBox,
> {
    ground_at(
        tiles,
        cell_of(position.x + size.x * SUBUNITS),
        cell_of(position.y + size.y * SUBUNITS),
    )
}

/// The tile beside a body at `position`: in its own row, at its own column,
/// else at the next column.
pub open spec fn side_at(tiles: Seq<MapTile>, col: int, row: int) -> Option<BoundingBox> {
    if has_tile(tiles, cell(col, row)) {
        Some(cell_box(cell(col, row)))
    } else if has_tile(tiles, cell(col + 1, row)) {
        Some(cell_box(cell(col + 1, row)))
    } else {
        None
    }
}

/// Whether a tile of `tiles` sits at `a`, and whether one sits at `b`.
fn find_cells(tiles: &[MapTile], a: UPoint, b: UPoint) -> (r: (bool, bool))
    ensures
        r.0 == has_tile(tiles@, a),
        r.1 == has_tile(tiles@, b),
{
    let mut found_a = false;
    let mut found_b = false;
    let mut i: usize = 0;
    while i < tiles.len()
        invariant
            i <= tiles@.len(),
            found_a == exists|j: int| 0 <= j < i && (#[trigger] tiles@[j]).coordinate == a,
            found_b == exists|j: int| 0 <= j < i && (#[trigger] tiles@[j]).coordinate == b,
        decreases tiles.len() - i,
    {
        let c = tiles[i].coordinate;
        if c == a {
            found_a = true;
        }
        if c == b {
            found_b = true;
        }
        i += 1;
    }
    (found_a, found_b)
}

/// Exec form of `ground_at`.
fn ground_contact(tiles: &[MapTile], col: u32, row: u32) -> (r: Option<BoundingBox>)
    ensures
        r == ground_at(tiles@, col as int, row as int),
        r matches Some(b) ==> b.wf(),
{
    let east = UPoint { x: col, y: row };
    if col == 0 {
        let (found, _) = find_cells(tiles, east, east);
        if found {
            Some(cell_collider(east))
        } else {
            None
        }
    } else {
        let west = UPoint { x: col - 1, y: row };
        let (found_west, found_east) = find_cells(tiles, west, east);
        if found_west && found_east {
            let w = cell_collider(west);
            let e = cell_collider(east);
            let height = if w.height >= e.height {
                w.height
            } else {
                e.height
            };
            Some(BoundingBox { x: w.x, y: w.y, width: w.width + e.width, height })
        } else if found_west {
            Some(cell_collider(west))
        } else if found_east {
            Some(cell_collider(east))
        } else {
            None
        }
    }
}

/// Returns the ground directly below a body of `size` whole world units at
/// `position`, as one world-space box. Where the body spans two columns,
/// the two tiles' boxes are merged into one wider box.
pub fn below_of(position: Point, size: UPoint, tiles: &[MapTile]) -> (r: Option<BoundingBox>)
    requires
        in_span(position.x),
        in_span(position.y),
    ensures
        r == below_spec(position, size, tiles@),
        r matches Some(b) ==> b.wf(),
{
    let col = position_to_coordinate(position.x + size.x as i64 * SUBUNITS);
    let row = position_to_coordinate(position.y + size.y as i64 * SUBUNITS);
    ground_contact(tiles, col, row)
}

/// The ground under the player: the row after the player's, at the
/// player's column and the next one, merged into one box where both hold a
/// tile. The scene is left as it was.
pub fn closest_ground(scene: &mut Scene, nearby_tiles: &Vec<MapTile>) -> (r: Option<BoundingBox>)
    requires
        in_span(old(scene).player.position.x),
        in_span(old(scene).player.position.y),
    ensures
        *final(scene) == *old(scene),
        r == ground_at(
            nearby_tiles@,
            cell_of(old(scene).player.position.x as int) + 1,
            cell_of(old(scene).player.position.y as int) + 1,
        ),
        r matches Some(b) ==> b.wf(),
{
    let col = position_to_coordinate(scene.player.position.x);
    let row = position_to_coordinate(scene.player.position.y);
    ground_contact(nearby_tiles.as_slice(), col + 1, row + 1)
}

/// The tile beside the player, in the player's row: at the player's column,
/// else at the next one. The scene is left as it was.
pub fn closest_side(scene: &mut Scene, tiles: &Vec<MapTile>) -> (r: Option<BoundingBox>)
    requires
        in_span(old(scene).player.position.x),
        in_span(old(scene).player.position.y),
    ensures
        *final(scene) == *old(scene),
        r == side_at(
            tiles@,
            cell_of(old(scene).player.position.x as int),
            cell_of(old(scene).player.position.y as int),
        ),
        r matches Some(b) ==> b.wf(),
{
    let col = position_to_coordinate(scene.player.position.x);
    let row = position_to_coordinate(scene.player.position.y);
    let here = UPoint { x: col, y: row };
    let next = UPoint { x: col + 1, y: row };
    let (found_here, found_next) = find_cells(tiles.as_slice(), here, next);
    if found_here {
        Some(cell_collider(here))
    } else if found_next {
        Some(cell_collider(next))
    } else {
        None
    }
}

} // verus!
