//! The fixed instance grid: the one loaded model is drawn many times, on a
//! square grid in the horizontal plane, each copy turned forty-five degrees
//! about an axis derived from its own position (with a fixed fallback axis
//! where that position is the origin, which a normalized zero vector could
//! not provide).

use vstd::prelude::*;

use crate::SCALE;
use crate::camera::Vec3;

verus! {

/// Instances per grid row (and per column): the grid holds the square.
pub const INSTANCES_PER_ROW: usize = 10;

/// Distance between neighbouring grid positions, in whole units.
pub const GRID_SPACING: i64 = 3;

/// The grid is shifted back toward the origin by this many units on the
/// horizontal axes, so it straddles the origin instead of starting there.
pub const GRID_DISPLACEMENT: i64 = 5;

/// The fixed rotation applied to every instance, in whole degrees.
pub const ROTATION_DEGREES: i64 = 45;

/// The axis an instance rotates about: its own position, or the depth axis
/// where the position is the origin and has no direction.
#[derive(Clone, Copy, PartialEq, Eq, Structural, Debug)]
pub enum RotationAxis {
    /// The unit vector along the depth axis (the division-by-zero guard).
    UnitZ,
    /// The instance's own position, normalized by the renderer.
    FromPosition,
}

/// One drawn copy of the model: where it stands and what it rotates about.
/// The rotation angle is the fixed `ROTATION_DEGREES`.
#[derive(Clone, Copy, PartialEq, Eq, Structural, Debug)]
pub struct Instance {
    pub position: Vec3,
    pub axis: RotationAxis,
}

/// The grid position of column `x`, row `z`, in fixed-point ticks.
pub open spec fn grid_position(x: int, z: int) -> Vec3 {
    Vec3 {
        x: ((GRID_SPACING * x - GRID_DISPLACEMENT) * SCALE) as i64,
        y: 0,
        z: ((GRID_SPACING * z - GRID_DISPLACEMENT) * SCALE) as i64,
    }
}

/// The axis rule: the fallback exactly when the position is the origin.
pub open spec fn axis_of(p: Vec3) -> RotationAxis {
    if p == (Vec3 { x: 0, y: 0, z: 0 }) {
        RotationAxis::UnitZ
    } else {
        RotationAxis::FromPosition
    }
}

/// Picks the rotation axis for an instance at `p`: the position itself,
/// unless `p` is the origin, where the fixed depth axis stands in.
pub fn rotation_axis(p: Vec3) -> (a: RotationAxis)
    ensures
        a == axis_of(p),
{
    if p.x == 0 && p.y == 0 && p.z == 0 {
        RotationAxis::UnitZ
    } else {
        RotationAxis::FromPosition
    }
}

/// The whole startup grid, row by row: the cell in column `x` of row `z`
/// stands at index `z * INSTANCES_PER_ROW + x`, at its grid position, with
/// the axis rule applied.
pub open spec fn grid_seq() -> Seq<Instance> {
    Seq::new((INSTANCES_PER_ROW * INSTANCES_PER_ROW) as nat, |i: int| Instance {
        position: grid_position(i % (INSTANCES_PER_ROW as int), i / (INSTANCES_PER_ROW as int)),
        axis: axis_of(grid_position(i % (INSTANCES_PER_ROW as int), i / (INSTANCES_PER_ROW as int))),
    })
}

/// Builds the startup instance grid: exactly the cells of `grid_seq`.
pub fn build_instances() -> (v: Vec<Instance>)
    ensures
        v@ == grid_seq(),
        v@.len() == INSTANCES_PER_ROW * INSTANCES_PER_ROW,
{
    let mut v: Vec<Instance> = Vec::new();
    let mut z: usize = 0;
    while z < INSTANCES_PER_ROW
        invariant
            0 <= z <= INSTANCES_PER_ROW,
            v@.len() == z * INSTANCES_PER_ROW,
            forall|i: int|
                0 <= i < v@.len() ==> #[trigger] v@[i] == (Instance {
                    position: grid_position(i % (INSTANCES_PER_ROW as int), i / (INSTANCES_PER_ROW as int)),
                    axis: axis_of(grid_position(i % (INSTANCES_PER_ROW as int), i / (INSTANCES_PER_ROW as int))),
                }),
        decreases INSTANCES_PER_ROW - z,
    {
        let mut x: usize = 0;
        while x < INSTANCES_PER_ROW
            invariant
                0 <= z < INSTANCES_PER_ROW,
                0 <= x <= INSTANCES_PER_ROW,
                v@.len() == z * INSTANCES_PER_ROW + x,
                forall|i: int|
                    0 <= i < v@.len() ==> #[trigger] v@[i] == (Instance {
                        position: grid_position(i % (INSTANCES_PER_ROW as int), i / (INSTANCES_PER_ROW as int)),
                        axis: axis_of(grid_position(i % (INSTANCES_PER_ROW as int), i / (INSTANCES_PER_ROW as int))),
                    }),
            decreases INSTANCES_PER_ROW - x,
        {
            let px: i64 = (GRID_SPACING * (x as i64) - GRID_DISPLACEMENT) * SCALE;
            let pz: i64 = (GRID_SPACING * (z as i64) - GRID_DISPLACEMENT) * SCALE;
            let position = Vec3 { x: px, y: 0, z: pz };
            let axis = rotation_axis(position);
            proof {
                let i = v@.len() as int;
                assert(i % (INSTANCES_PER_ROW as int) == x as int
                    && i / (INSTANCES_PER_ROW as int) == z as int) by (nonlinear_arith)
                    requires
                        i == z as int * (INSTANCES_PER_ROW as int) + x as int,
                        0 <= x as int,
                        (x as int) < (INSTANCES_PER_ROW as int),
                        0 <= z as int,
                        INSTANCES_PER_ROW == 10usize,
                ;
            }
            v.push(Instance { position, axis });
            x = x + 1;
        }
        z = z + 1;
    }
    proof {
        assert(v@ =~= grid_seq());
    }
    v
}

} // verus!
