use physics_sandbox::shapes::{
    ColliderShape, MeshShape, SelectedShape, ShapeType, HALF, ONE, THREE_TENTHS,
};
use physics_sandbox::text::{decimal_string, digit_str};

#[test]
fn all_lists_the_five_kinds_in_catalog_order() {
    assert_eq!(
        ShapeType::all(),
        vec![
            ShapeType::Ball,
            ShapeType::Cube,
            ShapeType::Capsule,
            ShapeType::Cylinder,
            ShapeType::Cone,
        ]
    );
}

#[test]
fn display_names_are_the_labels() {
    assert_eq!(ShapeType::Ball.display_name(), "Ball");
    assert_eq!(ShapeType::Cube.display_name(), "Cube");
    assert_eq!(ShapeType::Capsule.display_name(), "Capsule");
    assert_eq!(ShapeType::Cylinder.display_name(), "Cylinder");
    assert_eq!(ShapeType::Cone.display_name(), "Cone");
}

#[test]
fn dimension_constants_are_the_bits_of_their_numbers() {
    assert_eq!(f32::from_bits(THREE_TENTHS), 0.3);
    assert_eq!(f32::from_bits(HALF), 0.5);
    assert_eq!(f32::from_bits(ONE), 1.0);
}

#[test]
fn colliders_have_the_default_dimensions() {
    assert_eq!(
        ShapeType::Ball.create_collider(),
        ColliderShape::Ball { radius: 0.5f32.to_bits() }
    );
    assert_eq!(
        ShapeType::Cube.create_collider(),
        ColliderShape::Cuboid {
            half_x: 0.5f32.to_bits(),
            half_y: 0.5f32.to_bits(),
            half_z: 0.5f32.to_bits(),
        }
    );
    assert_eq!(
        ShapeType::Capsule.create_collider(),
        ColliderShape::CapsuleY { half_height: 1.0f32.to_bits(), radius: 0.3f32.to_bits() }
    );
    assert_eq!(
        ShapeType::Cylinder.create_collider(),
        ColliderShape::Cylinder { half_height: 1.0f32.to_bits(), radius: 0.5f32.to_bits() }
    );
    assert_eq!(
        ShapeType::Cone.create_collider(),
        ColliderShape::Cone { half_height: 1.0f32.to_bits(), radius: 0.5f32.to_bits() }
    );
}

#[test]
fn meshes_have_the_default_dimensions() {
    assert_eq!(ShapeType::Ball.create_mesh(), MeshShape::Sphere { radius: 0.5f32.to_bits() });
    assert_eq!(ShapeType::Cube.create_mesh(), MeshShape::Cube { side: 1.0f32.to_bits() });
    assert_eq!(
        ShapeType::Capsule.create_mesh(),
        MeshShape::Capsule { half_height: 1.0f32.to_bits(), radius: 0.3f32.to_bits() }
    );
    assert_eq!(
        ShapeType::Cylinder.create_mesh(),
        MeshShape::Cylinder { half_height: 1.0f32.to_bits(), radius: 0.5f32.to_bits() }
    );
    assert_eq!(
        ShapeType::Cone.create_mesh(),
        MeshShape::Cone { half_height: 1.0f32.to_bits(), radius: 0.5f32.to_bits() }
    );
}

#[test]
fn next_follows_the_catalog_and_wraps() {
    assert_eq!(ShapeType::Ball.next(), ShapeType::Cube);
    assert_eq!(ShapeType::Cube.next(), ShapeType::Capsule);
    assert_eq!(ShapeType::Capsule.next(), ShapeType::Cylinder);
    assert_eq!(ShapeType::Cylinder.next(), ShapeType::Cone);
    assert_eq!(ShapeType::Cone.next(), ShapeType::Ball);
}

#[test]
fn selection_starts_with_ball() {
    assert_eq!(SelectedShape::default().shape_type, ShapeType::Ball);
}

#[test]
fn cycle_once_from_ball_yields_cube() {
    let mut selected = SelectedShape { shape_type: ShapeType::Ball };
    selected.cycle();
    assert_eq!(selected.shape_type, ShapeType::Cube);
}

#[test]
fn cycle_once_from_cone_wraps_to_ball() {
    let mut selected = SelectedShape { shape_type: ShapeType::Cone };
    selected.cycle();
    assert_eq!(selected.shape_type, ShapeType::Ball);
}

#[test]
fn cycle_five_times_returns_to_the_start() {
    for start in ShapeType::all() {
        let mut selected = SelectedShape { shape_type: start };
        for step in 1..=5 {
            selected.cycle();
            if step < 5 {
                assert_ne!(selected.shape_type, start);
            }
        }
        assert_eq!(selected.shape_type, start);
    }
}

#[test]
fn digit_str_gives_each_digit() {
    let digits = ["0", "1", "2", "3", "4", "5", "6", "7", "8", "9"];
    for d in 0..10u32 {
        assert_eq!(digit_str(d), digits[d as usize]);
    }
}

#[test]
fn decimal_string_matches_the_usual_numerals() {
    assert_eq!(decimal_string(0), "0");
    assert_eq!(decimal_string(7), "7");
    assert_eq!(decimal_string(10), "10");
    assert_eq!(decimal_string(42), "42");
    assert_eq!(decimal_string(1905), "1905");
    assert_eq!(decimal_string(4294967295), "4294967295");
    for n in [9u32, 11, 99, 100, 101, 999, 1000, 65535, 65536, 123456789] {
        assert_eq!(decimal_string(n), n.to_string());
    }
}
