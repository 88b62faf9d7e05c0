//! Behaviour of instance-grid generation.

use render_core::instances::{make_default_grid, make_instances, GridPos, Instance, Rotation};

#[test]
fn generation_is_deterministic_and_restartable() {
    let a = make_instances(10, 5, 5);
    let b = make_instances(10, 5, 5);
    assert_eq!(a, b);
    assert_eq!(a.len(), 100);
}

#[test]
fn default_grid_matches_explicit_parameters() {
    assert_eq!(make_default_grid(), make_instances(10, 5, 5));
}

#[test]
fn rows_are_generated_in_order() {
    let g = make_instances(3, 0, 0);
    // Cell (x, z) is element z * 3 + x.
    assert_eq!(g[0].position, GridPos { x: 0, y: 0, z: 0 });
    assert_eq!(g[1].position, GridPos { x: 1, y: 0, z: 0 });
    assert_eq!(g[5].position, GridPos { x: 2, y: 0, z: 1 });
    assert_eq!(g[7].position, GridPos { x: 1, y: 0, z: 2 });
}

#[test]
fn displacement_shifts_every_position() {
    let g = make_instances(2, 5, -3);
    assert_eq!(g[0].position, GridPos { x: -5, y: 0, z: 3 });
    assert_eq!(g[3].position, GridPos { x: -4, y: 0, z: 4 });
}

#[test]
fn origin_instance_is_exactly_identity() {
    let g = make_default_grid();
    let origin_index = 5 * 10 + 5;
    assert_eq!(
        g[origin_index],
        Instance {
            position: GridPos { x: 0, y: 0, z: 0 },
            rotation: Rotation::Identity,
        }
    );
    for (i, inst) in g.iter().enumerate() {
        if i == origin_index {
            continue;
        }
        match inst.rotation {
            Rotation::AxisAngleDeg { axis, angle_deg } => {
                assert_eq!(axis, inst.position);
                assert_ne!(axis, GridPos { x: 0, y: 0, z: 0 });
                assert_eq!(angle_deg, 45);
            }
            Rotation::Identity => panic!("identity away from the displacement cell"),
        }
    }
}

#[test]
fn grid_without_origin_cell_has_no_identity() {
    // Displacement outside the grid: no cell sits at the origin.
    let g = make_instances(2, 7, 7);
    assert!(g.iter().all(|i| matches!(i.rotation, Rotation::AxisAngleDeg { .. })));
}

#[test]
fn empty_grid_is_empty() {
    assert!(make_instances(0, 0, 0).is_empty());
}
