//! Decisions of the rendering orchestrator that are plain computation:
//! the instance grid and the resize guard. The GPU device, surface,
//! pipeline and command recording around them live with the application,
//! which feeds their results back in as plain values.

use crate::camera::Vec3Fix;
use vstd::prelude::*;

verus! {

/// Instances per grid row.
pub const NUM_INSTANCES_PER_ROW: u32 = 10;

/// Total instance count: the grid is square.
pub const NUM_INSTANCES: u32 = NUM_INSTANCES_PER_ROW * NUM_INSTANCES_PER_ROW;

/// Distance between neighbouring grid slots, in micro-units (10.0).
pub const INSTANCE_SPACING: i64 = 10_000_000;

/// Displacement subtracted from both grid axes to centre the grid, in
/// micro-units: half a row (5.0).
pub const INSTANCE_DISPLACEMENT: i64 = 5_000_000;

/// One slot of the instance grid: where the instance sits, and whether
/// its rotation must be the identity because it sits at the origin
/// (rotating about a normalized zero vector would corrupt the scale).
#[derive(Clone, Copy, Debug, PartialEq, Eq, Structural)]
pub struct GridSlot {
    pub position: Vec3Fix,
    pub identity_rotation: bool,
}

/// Grid coordinate of row or column `i`: spaced and displaced.
pub open spec fn grid_coord(i: int) -> int {
    i * (INSTANCE_SPACING as int) - INSTANCE_DISPLACEMENT as int
}

/// Slot `k` of the row-major grid: column `k % 10`, row `k / 10`, on the
/// ground plane.
pub open spec fn grid_slot(k: int) -> GridSlot {
    let px = grid_coord(k % (NUM_INSTANCES_PER_ROW as int));
    let pz = grid_coord(k / (NUM_INSTANCES_PER_ROW as int));
    GridSlot {
        position: Vec3Fix { x: px as i64, y: 0i64, z: pz as i64 },
        identity_rotation: px == 0 && pz == 0,
    }
}

/// Builds the full instance grid, row by row.
pub fn instance_grid() -> (g: Vec<GridSlot>)
    ensures
        g.len() == NUM_INSTANCES,
        forall|k: int| 0 <= k < g.len() ==> g[k] == grid_slot(k),
{
    let mut g: Vec<GridSlot> = Vec::new();
    let mut k: usize = 0;
    while k < 100
        invariant
            k <= 100,
            g.len() == k,
            forall|j: int| 0 <= j < k ==> g[j] == grid_slot(j),
        decreases 100 - k,
    {
        let x: usize = k % 10;
        let z: usize = k / 10;
        let px: i64 = (x as i64) * INSTANCE_SPACING - INSTANCE_DISPLACEMENT;
        let pz: i64 = (z as i64) * INSTANCE_SPACING - INSTANCE_DISPLACEMENT;
        let position = Vec3Fix { x: px, y: 0, z: pz };
        let identity_rotation: bool = position.x == 0 && position.y == 0 && position.z == 0;
        g.push(GridSlot { position, identity_rotation });
        k = k + 1;
    }
    g
}

/// A surface size in pixels.
#[derive(Clone, Copy, Debug, PartialEq, Eq, Structural)]
pub struct SurfaceExtent {
    pub width: u32,
    pub height: u32,
}

/// The extent after a resize request: the new size if both dimensions are
/// non-zero, otherwise the current one — a zero-sized surface must never
/// be configured.
pub open spec fn resized_extent(current: SurfaceExtent, width: u32, height: u32) -> SurfaceExtent {
    if width > 0 && height > 0 {
        SurfaceExtent { width, height }
    } else {
        current
    }
}

/// Applies a resize request to a surface extent, guarding against zero
/// dimensions.
pub fn apply_resize(current: SurfaceExtent, width: u32, height: u32) -> (r: SurfaceExtent)
    ensures
        r == resized_extent(current, width, height),
{
    if width > 0 && height > 0 {
        SurfaceExtent { width, height }
    } else {
        current
    }
}

} // verus!
