use flyscene::camera::Vec3;
use flyscene::instance::{
    build_instances, rotation_axis, RotationAxis, GRID_DISPLACEMENT, GRID_SPACING,
    INSTANCES_PER_ROW,
};
use flyscene::SCALE;

#[test]
fn grid_has_exactly_one_hundred_instances() {
    let v = build_instances();
    assert_eq!(v.len(), 100);
    assert_eq!(v.len(), INSTANCES_PER_ROW * INSTANCES_PER_ROW);
}

#[test]
fn grid_positions_follow_row_major_order() {
    let v = build_instances();
    // First cell: column 0 of row 0.
    assert_eq!(v[0].position, Vec3 { x: -5 * SCALE, y: 0, z: -5 * SCALE });
    // Column 7 of row 2.
    let i = 2 * INSTANCES_PER_ROW + 7;
    assert_eq!(
        v[i].position,
        Vec3 { x: (GRID_SPACING * 7 - GRID_DISPLACEMENT) * SCALE, y: 0, z: (GRID_SPACING * 2
            - GRID_DISPLACEMENT) * SCALE },
    );
    // Last cell: column 9 of row 9.
    assert_eq!(v[99].position, Vec3 { x: 22 * SCALE, y: 0, z: 22 * SCALE });
}

#[test]
fn no_grid_cell_sits_at_the_origin() {
    // With spacing three and displacement five no cell lands on the origin,
    // so every instance rotates about its own position.
    let v = build_instances();
    for inst in &v {
        assert_ne!(inst.position, Vec3 { x: 0, y: 0, z: 0 });
        assert_eq!(inst.axis, RotationAxis::FromPosition);
    }
}

#[test]
fn origin_falls_back_to_the_depth_axis() {
    assert_eq!(rotation_axis(Vec3 { x: 0, y: 0, z: 0 }), RotationAxis::UnitZ);
    assert_eq!(
        rotation_axis(Vec3 { x: 0, y: 0, z: 1 }),
        RotationAxis::FromPosition,
    );
    assert_eq!(
        rotation_axis(Vec3 { x: -SCALE, y: 0, z: 0 }),
        RotationAxis::FromPosition,
    );
}
