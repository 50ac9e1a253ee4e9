//! Fixed-point world lengths and the conversion between world space and the
//! tile grid.
use vstd::prelude::*;

verus! {

/// Sub-units in one world unit.
pub const SUBUNITS: i64 = 1000;

/// Side of one grid tile, in world units.
pub const TILE_UNITS: u32 = 16;

/// Side of one grid tile, in sub-units.
pub const TILE_SIZE: i64 = 16000;

/// Largest magnitude of a world coordinate that the simulation accepts.
pub const POS_LIMIT: i64 = 0x4_0000_0000_0000;

/// Largest magnitude of a corner of a box or of a probe position: room for
/// an entity inside the world to move by a few accepted rates.
pub const SPAN_LIMIT: i64 = 0x10_0000_0000_0000;

/// Largest magnitude of a velocity or of an extent that the simulation accepts.
pub const RATE_LIMIT: i64 = 0x100_0000_0000;

/// A world coordinate that the simulation can move by any accepted rate
/// without leaving the range of `i64`.
pub open spec fn in_world(v: i64) -> bool {
    -POS_LIMIT <= v <= POS_LIMIT
}

/// A coordinate of a box corner or probe within the accepted range.
pub open spec fn in_span(v: i64) -> bool {
    -SPAN_LIMIT <= v <= SPAN_LIMIT
}

/// A velocity or extent within the accepted range.
pub open spec fn in_rate(v: i64) -> bool {
    -RATE_LIMIT <= v <= RATE_LIMIT
}

/// Whole world units of `v`, truncated toward zero and saturated to the
/// range of `u32` (negative values give zero).
pub open spec fn whole_units_of(v: int) -> int {
    if v <= 0 {
        0
    } else if v / (SUBUNITS as int) > u32::MAX as int {
        u32::MAX as int
    } else {
        v / (SUBUNITS as int)
    }
}

/// The grid cell (row or column) that a world coordinate falls in.
pub open spec fn cell_of(v: int) -> int {
    whole_units_of(v) / (TILE_UNITS as int)
}

/// Whole world units of a fixed-point coordinate, as `u32`.
pub fn whole_units(v: i64) -> (r: u32)
    ensures
        r as int == whole_units_of(v as int),
{
    if v <= 0 {
        0
    } else {
        let w = v / SUBUNITS;
        if w > u32::MAX as i64 {
            u32::MAX
        } else {
            w as u32
        }
    }
}

/// The grid cell that a world coordinate falls in.
pub fn position_to_coordinate(position: i64) -> (r: u32)
    ensures
        r as int == cell_of(position as int),
{
    whole_units(position) / TILE_UNITS
}

/// World coordinate of the near edge of a grid cell.
pub fn coordinate_to_position(coordinate: u32) -> (r: i64)
    ensures
        r as int == coordinate as int * TILE_SIZE,
        in_world(r),
        in_span(r),
{
    coordinate as i64 * TILE_SIZE
}

} // verus!
