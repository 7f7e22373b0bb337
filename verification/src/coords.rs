//! Tile coordinates. Requests number the rows of a zoom level from the top
//! (XYZ); tile archives number them from the bottom (TMS).

use vstd::prelude::*;
use vstd::arithmetic::power2::pow2;
use vstd::bits::{lemma_u32_pow2_no_overflow, lemma_u32_shl_is_mul};

verus! {

/// Zoom levels from this one up have more rows than a `u32` can count.
pub const ZOOM_LIMIT: u8 = 32;

/// Number of tile rows, and of tile columns, at zoom level `z`.
pub open spec fn grid_size(z: u8) -> nat {
    pow2(z as nat)
}

/// The row with number `y` at zoom `z`, counted from the opposite edge.
pub open spec fn spec_flip_y(z: u8, y: int) -> int {
    grid_size(z) - 1 - y
}

/// Position of a tile: zoom level, column and row, the row counted from
/// the top.
#[derive(Clone, Copy, Debug, PartialEq, Eq, Hash, Structural)]
pub struct Xyz {
    pub z: u8,
    pub x: u32,
    pub y: u32,
}

impl Xyz {
    /// The tile lies inside the grid of its zoom level.
    pub open spec fn in_grid(self) -> bool {
        &&& self.z < ZOOM_LIMIT
        &&& self.x < grid_size(self.z)
        &&& self.y < grid_size(self.z)
    }

    /// Tests whether the tile lies inside the grid of its zoom level.
    pub fn is_in_grid(&self) -> (inside: bool)
        ensures
            inside == self.in_grid(),
    {
        if self.z >= ZOOM_LIMIT {
            return false;
        }
        let size: u32 = grid_size_u32(self.z);
        self.x <= size - 1 && self.y <= size - 1
    }

    /// Row of the tile as a tile archive numbers it.
    pub fn tms_row(&self) -> (row: u32)
        requires
            self.z < ZOOM_LIMIT,
            self.y < grid_size(self.z),
        ensures
            row == spec_flip_y(self.z, self.y as int),
            row < grid_size(self.z),
    {
        flip_y(self.z, self.y)
    }
}

/// Number of rows at zoom `z`.
fn grid_size_u32(z: u8) -> (size: u32)
    requires
        z < ZOOM_LIMIT,
    ensures
        size == grid_size(z),
        size >= 1,
{
    proof {
        lemma_u32_pow2_no_overflow(z as nat);
        lemma_u32_shl_is_mul(1u32, z as u32);
    }
    1u32 << (z as u32)
}

/// Converts a row number between the two conventions. The conversion is the
/// same in both directions.
pub fn flip_y(z: u8, y: u32) -> (flipped: u32)
    requires
        z < ZOOM_LIMIT,
        y < grid_size(z),
    ensures
        flipped == spec_flip_y(z, y as int),
        flipped < grid_size(z),
{
    grid_size_u32(z) - 1 - y
}

/// Converts a row number between the two conventions where the row exists
/// at that zoom level, and gives `None` where it does not.
pub fn checked_flip_y(z: u8, y: u32) -> (flipped: Option<u32>)
    ensures
        flipped is Some <==> z < ZOOM_LIMIT && y < grid_size(z),
        flipped matches Some(row) ==> row == spec_flip_y(z, y as int),
{
    if z >= ZOOM_LIMIT {
        return None;
    }
    let size: u32 = grid_size_u32(z);
    if y <= size - 1 {
        Some(size - 1 - y)
    } else {
        None
    }
}

/// Converting a row of the grid to the other convention gives a row of the
/// grid, and converting twice gives the row back.
pub proof fn lemma_flip_y_involution(z: u8, y: int)
    requires
        0 <= y < grid_size(z),
    ensures
        0 <= spec_flip_y(z, y) < grid_size(z),
        spec_flip_y(z, spec_flip_y(z, y)) == y,
{
}

} // verus!
