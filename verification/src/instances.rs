//! Deterministic generation of the instance grid.
//!
//! The scene draws one mesh many times: an `n` by `n` grid of instances,
//! each offset by a displacement vector.  The cell at column `x` and row `z`
//! sits at local position `(x - dx, 0, z - dz)`.  Its rotation is the
//! identity exactly when that position is the origin — so no zero vector is
//! ever normalized — and otherwise a fixed 45-degree turn about the
//! position, which the host normalizes before building the transform.
//!
//! Generation is a pure function of the row count and the displacement:
//! the result is pinned element by element, so any two runs with the same
//! inputs produce the same ordered sequence.

use vstd::arithmetic::div_mod::lemma_fundamental_div_mod_converse;
use vstd::prelude::*;

verus! {

/// Rows and columns of the reference scene's grid.
pub const INSTANCES_PER_ROW: u32 = 10;

/// Displacement of the reference scene along x and z: half the row count,
/// so the grid is centred on the origin.
pub const INSTANCE_DISPLACEMENT: i32 = 5;

/// A grid-local position.  Cell coordinates and displacements are whole
/// numbers, so positions are held exactly; the host widens them to the
/// GPU's scalar type when packing transforms.
#[derive(Clone, Copy, Debug, PartialEq, Eq, Structural)]
pub struct GridPos {
    pub x: i64,
    pub y: i64,
    pub z: i64,
}

impl GridPos {
    pub open spec fn is_origin(&self) -> bool {
        self.x == 0 && self.y == 0 && self.z == 0
    }
}

/// An instance's rotation, described by what the host must build: nothing,
/// or a fixed-angle turn about an axis it normalizes first.
#[derive(Clone, Copy, Debug, PartialEq, Eq, Structural)]
pub enum Rotation {
    /// The identity quaternion, used exactly at the origin, where there is
    /// no direction to rotate about.
    Identity,
    /// A rotation of `angle_deg` degrees about `axis`, which is never the
    /// zero vector and is normalized by the host.
    AxisAngleDeg { axis: GridPos, angle_deg: u32 },
}

/// One drawn copy of the mesh: where it sits and how it is turned.
#[derive(Clone, Copy, Debug, PartialEq, Eq, Structural)]
pub struct Instance {
    pub position: GridPos,
    pub rotation: Rotation,
}

/// The instance of grid cell `(x, z)` under displacement `(dx, dz)`.
pub open spec fn spec_instance_at(x: int, z: int, dx: int, dz: int) -> Instance {
    let position = GridPos { x: (x - dx) as i64, y: 0, z: (z - dz) as i64 };
    let rotation = if x == dx && z == dz {
        Rotation::Identity
    } else {
        Rotation::AxisAngleDeg { axis: position, angle_deg: 45 }
    };
    Instance { position, rotation }
}

/// The whole grid in generation order: row `z` after row `z - 1`, and cell
/// `x` after cell `x - 1` inside a row, so cell `(x, z)` is element
/// `z * n + x`.
pub open spec fn spec_grid(n: int, dx: int, dz: int) -> Seq<Instance> {
    Seq::new((n * n) as nat, |i: int| spec_instance_at(i % n, i / n, dx, dz))
}

/// The instance of one grid cell.
pub fn instance_at(x: u32, z: u32, dx: i32, dz: i32) -> (r: Instance)
    ensures
        r == spec_instance_at(x as int, z as int, dx as int, dz as int),
{
    let px: i64 = x as i64 - dx as i64;
    let pz: i64 = z as i64 - dz as i64;
    let position = GridPos { x: px, y: 0, z: pz };
    if px == 0 && pz == 0 {
        Instance { position, rotation: Rotation::Identity }
    } else {
        Instance { position, rotation: Rotation::AxisAngleDeg { axis: position, angle_deg: 45 } }
    }
}

/// Generates the `n` by `n` instance grid displaced by `(dx, dz)`.
///
/// The result equals `spec_grid(n, dx, dz)` element for element, so
/// generation is deterministic and restartable: nothing but the arguments
/// enters the result.
pub fn make_instances(n: u32, dx: i32, dz: i32) -> (r: Vec<Instance>)
    requires
        n * n <= usize::MAX,
    ensures
        r@ == spec_grid(n as int, dx as int, dz as int),
        r@.len() == n * n,
{
    let mut r: Vec<Instance> = Vec::new();
    let mut z: u32 = 0;
    while z < n
        invariant
            z <= n,
            n * n <= usize::MAX,
            r@.len() == z * n,
            forall|i: int|
                0 <= i < r@.len() ==> r@[i] == #[trigger] spec_grid(
                    n as int,
                    dx as int,
                    dz as int,
                )[i],
        decreases n - z,
    {
        let mut x: u32 = 0;
        proof {
            mul_le_square(z as int, n as int);
        }
        while x < n
            invariant
                z < n,
                x <= n,
                n * n <= usize::MAX,
                z * n + n <= n * n,
                r@.len() == z * n + x,
                forall|i: int|
                    0 <= i < r@.len() ==> r@[i] == #[trigger] spec_grid(
                        n as int,
                        dx as int,
                        dz as int,
                    )[i],
            decreases n - x,
        {
            let inst = instance_at(x, z, dx, dz);
            proof {
                let i = z * n + x;
                lemma_fundamental_div_mod_converse(i as int, n as int, z as int, x as int);
                assert(spec_grid(n as int, dx as int, dz as int)[i as int] == spec_instance_at(
                    x as int,
                    z as int,
                    dx as int,
                    dz as int,
                ));
            }
            r.push(inst);
            x = x + 1;
        }
        z = z + 1;
        proof {
            assert(z * n == (z - 1) * n + n) by (nonlinear_arith);
        }
    }
    proof {
        assert(r@ =~= spec_grid(n as int, dx as int, dz as int));
    }
    r
}

/// The grid of the reference scene: 10 rows of 10, centred on the origin.
pub fn make_default_grid() -> (r: Vec<Instance>)
    ensures
        r@ == spec_grid(
            INSTANCES_PER_ROW as int,
            INSTANCE_DISPLACEMENT as int,
            INSTANCE_DISPLACEMENT as int,
        ),
        r@.len() == INSTANCES_PER_ROW * INSTANCES_PER_ROW,
{
    make_instances(INSTANCES_PER_ROW, INSTANCE_DISPLACEMENT, INSTANCE_DISPLACEMENT)
}

/// For `0 <= z < n`, `z * n + n <= n * n`.
proof fn mul_le_square(z: int, n: int)
    requires
        0 <= z < n,
    ensures
        z * n + n <= n * n,
{
    assert((z + 1) * n == z * n + n) by (nonlinear_arith);
    assert((z + 1) * n <= n * n) by (nonlinear_arith)
        requires
            0 <= z < n,
    ;
}

/// Instance generation is deterministic and restartable: any two sequences
/// generated with the same row count and the same displacement are the
/// same ordered sequence of positions and rotations.
pub proof fn lemma_generation_deterministic(
    a: Seq<Instance>,
    b: Seq<Instance>,
    n: int,
    dx: int,
    dz: int,
)
    requires
        a == spec_grid(n, dx, dz),
        b == spec_grid(n, dx, dz),
    ensures
        a == b,
{
}

/// The one instance whose grid cell equals the displacement vector sits at
/// the origin and carries exactly the identity rotation; every other cell
/// carries the fixed-angle rotation about its own (non-zero) position, so
/// no zero vector is ever handed out as an axis.
pub proof fn lemma_identity_exactly_at_displacement(n: int, dx: int, dz: int)
    requires
        0 <= dx < n,
        0 <= dz < n,
        n <= u32::MAX,
    ensures
        spec_grid(n, dx, dz)[dz * n + dx].position.is_origin(),
        spec_grid(n, dx, dz)[dz * n + dx].rotation == Rotation::Identity,
        forall|i: int|
            0 <= i < n * n && i != dz * n + dx ==> ((#[trigger] spec_grid(n, dx, dz)[i].rotation)
                matches Rotation::AxisAngleDeg { axis, angle_deg } && !axis.is_origin()
                && angle_deg == 45),
{
    let g = spec_grid(n, dx, dz);
    let j = dz * n + dx;
    assert(0 <= dz * n + dx < n * n) by (nonlinear_arith)
        requires
            0 <= dx < n,
            0 <= dz < n,
    ;
    lemma_fundamental_div_mod_converse(j, n, dz, dx);
    assert(g[j] == spec_instance_at(dx, dz, dx, dz));
    assert forall|i: int| 0 <= i < n * n && i != j implies (#[trigger] g[i].rotation)
        matches Rotation::AxisAngleDeg { axis, angle_deg } && !axis.is_origin() && angle_deg
        == 45 by {
        let x = i % n;
        let z = i / n;
        vstd::arithmetic::div_mod::lemma_fundamental_div_mod(i, n);
        assert(0 <= x < n);
        assert(i == z * n + x);
        assert(0 <= z < n) by (nonlinear_arith)
            requires
                0 <= i < n * n,
                i == z * n + x,
                0 <= x < n,
        ;
        if x == dx && z == dz {
            assert(i == j);
        }
        assert(g[i] == spec_instance_at(x, z, dx, dz));
        if !(x == dx && z == dz) {
            let p = spec_instance_at(x, z, dx, dz).position;
            assert(i64::MIN <= x - dx <= i64::MAX);
            assert(i64::MIN <= z - dz <= i64::MAX);
            assert(p.x == x - dx && p.z == z - dz);
            assert(!p.is_origin());
        }
    }
}

} // verus!
