use physics_sandbox::objects::{EntityRef, Position, SpawnEntityEvent};
use physics_sandbox::registry::GameObjectManager;
use physics_sandbox::shapes::{ColliderShape, MeshShape, SelectedShape, ShapeType};
use physics_sandbox::systems::{
    cleanup_destroyed_entities_system, handle_input, shape_selection_ui, spawn_entity_system,
    update_object_positions_system, BodyKind, RESTITUTION, SPAWN_HEIGHT,
};

fn point(x: f32, y: f32, z: f32) -> Position {
    Position { x: x.to_bits(), y: y.to_bits(), z: z.to_bits() }
}

fn request(shape_type: ShapeType, name: Option<&str>) -> SpawnEntityEvent {
    SpawnEntityEvent {
        position: point(2.0, 4.0, -1.0),
        shape_type,
        custom_name: name.map(|n| n.to_string()),
    }
}

#[test]
fn spawn_constants_are_the_bits_of_their_numbers() {
    assert_eq!(f32::from_bits(SPAWN_HEIGHT), 4.0);
    assert_eq!(f32::from_bits(RESTITUTION), 0.7);
}

#[test]
fn no_key_press_makes_no_request() {
    let selected = SelectedShape::default();
    assert!(handle_input(false, &selected, 1.0f32.to_bits(), 2.0f32.to_bits()).is_none());
}

#[test]
fn spawn_key_requests_the_selected_shape_at_spawn_height() {
    let selected = SelectedShape { shape_type: ShapeType::Capsule };
    let made = handle_input(true, &selected, (-4.5f32).to_bits(), 3.25f32.to_bits())
        .expect("the key was pressed");
    assert_eq!(made.shape_type, ShapeType::Capsule);
    assert_eq!(made.custom_name.as_deref(), Some("bob"));
    assert_eq!(f32::from_bits(made.position.x), -4.5);
    assert_eq!(f32::from_bits(made.position.y), 4.0);
    assert_eq!(f32::from_bits(made.position.z), 3.25);
}

#[test]
fn plan_uses_the_catalog_and_the_spawn_defaults() {
    let plan = request(ShapeType::Capsule, None).plan();
    assert_eq!(
        plan.mesh,
        MeshShape::Capsule { half_height: 1.0f32.to_bits(), radius: 0.3f32.to_bits() }
    );
    assert_eq!(
        plan.collider,
        ColliderShape::CapsuleY { half_height: 1.0f32.to_bits(), radius: 0.3f32.to_bits() }
    );
    assert_eq!(plan.position, point(2.0, 4.0, -1.0));
    assert_eq!(plan.body, BodyKind::Dynamic);
    assert_eq!(f32::from_bits(plan.restitution), 0.7);
    for kind in ShapeType::all() {
        let plan = request(kind, Some("n")).plan();
        assert_eq!(plan.mesh, kind.create_mesh());
        assert_eq!(plan.collider, kind.create_collider());
        assert_eq!(plan.body, BodyKind::Dynamic);
    }
}

#[test]
fn spawn_registers_the_entity_and_returns_its_tag() {
    let mut manager = GameObjectManager::default();
    let tag = spawn_entity_system(
        &mut manager,
        &request(ShapeType::Cone, None),
        EntityRef { bits: 11 },
        2.5f64.to_bits(),
    )
    .expect("identifiers are left");
    assert_eq!(tag.id, 0);
    assert_eq!(tag.name, "Cone 0");
    assert_eq!(tag.shape_type, ShapeType::Cone);
    assert_eq!(f64::from_bits(tag.created_at), 2.5);

    let tag = spawn_entity_system(
        &mut manager,
        &request(ShapeType::Cube, Some("bob")),
        EntityRef { bits: 12 },
        3.5f64.to_bits(),
    )
    .expect("identifiers are left");
    assert_eq!(tag.id, 1);
    assert_eq!(tag.name, "bob");
    assert_eq!(tag.shape_type, ShapeType::Cube);
    assert_eq!(f64::from_bits(tag.created_at), 3.5);

    assert_eq!(manager.objects.len(), 2);
    let object = manager.get_object_by_entity(EntityRef { bits: 12 }).expect("it was registered");
    assert_eq!(object.id, 1);
    assert_eq!(object.name, "bob");
    assert_eq!(object.shape_type, ShapeType::Cube);
    assert_eq!(object.position, point(2.0, 4.0, -1.0));
    assert_eq!(f64::from_bits(object.created_at), 3.5);
    assert_eq!(manager.list_objects(), vec!["Cone 0 (ID: 0, Type: Cone)", "bob (ID: 1, Type: Cube)"]);
}

#[test]
fn spawn_registers_nothing_when_identifiers_are_used_up() {
    let mut manager = GameObjectManager::default();
    manager.next_id = u32::MAX;
    let tag = spawn_entity_system(
        &mut manager,
        &request(ShapeType::Ball, None),
        EntityRef { bits: 1 },
        0.0f64.to_bits(),
    );
    assert!(tag.is_none());
    assert_eq!(manager.objects.len(), 0);
    assert_eq!(manager.next_id, u32::MAX);
}

#[test]
fn requests_are_registered_in_the_order_they_are_handed_in() {
    let mut manager = GameObjectManager::default();
    let queue = vec![
        request(ShapeType::Ball, Some("first")),
        request(ShapeType::Cube, None),
        request(ShapeType::Cone, Some("third")),
    ];
    let mut tags = Vec::new();
    for (i, event) in queue.iter().enumerate() {
        let tag = spawn_entity_system(
            &mut manager,
            event,
            EntityRef { bits: 50 + i as u64 },
            1.0f64.to_bits(),
        );
        tags.push(tag.expect("identifiers are left").id);
    }
    assert_eq!(tags, vec![0, 1, 2]);
    assert_eq!(
        manager.list_objects(),
        vec![
            "first (ID: 0, Type: Ball)",
            "Cube 1 (ID: 1, Type: Cube)",
            "third (ID: 2, Type: Cone)",
        ]
    );
}

#[test]
fn cleanup_removes_destroyed_entities_and_passes_over_unknown_ones() {
    let mut manager = GameObjectManager::default();
    for i in 0..5u64 {
        spawn_entity_system(
            &mut manager,
            &request(ShapeType::Ball, None),
            EntityRef { bits: i },
            0.0f64.to_bits(),
        );
    }
    let destroyed = vec![
        EntityRef { bits: 3 },
        EntityRef { bits: 99 },
        EntityRef { bits: 0 },
        EntityRef { bits: 3 },
    ];
    cleanup_destroyed_entities_system(&destroyed, &mut manager);
    let left: Vec<u64> = manager.objects.iter().map(|o| o.entity.bits).collect();
    assert_eq!(left, vec![1, 2, 4]);
    assert_eq!(manager.next_id, 5);
    cleanup_destroyed_entities_system(&Vec::new(), &mut manager);
    assert_eq!(manager.objects.len(), 3);
}

#[test]
fn cycle_key_moves_the_selection_and_listing_key_returns_the_listing() {
    let mut manager = GameObjectManager::default();
    spawn_entity_system(
        &mut manager,
        &request(ShapeType::Cube, Some("bob")),
        EntityRef { bits: 1 },
        0.0f64.to_bits(),
    );
    let mut selected = SelectedShape::default();

    assert_eq!(shape_selection_ui(&mut selected, false, false, &manager), None);
    assert_eq!(selected.shape_type, ShapeType::Ball);

    assert_eq!(shape_selection_ui(&mut selected, true, false, &manager), None);
    assert_eq!(selected.shape_type, ShapeType::Cube);

    let listing = shape_selection_ui(&mut selected, false, true, &manager);
    assert_eq!(listing, Some(vec!["bob (ID: 0, Type: Cube)".to_string()]));
    assert_eq!(selected.shape_type, ShapeType::Cube);

    let listing = shape_selection_ui(&mut selected, true, true, &manager);
    assert_eq!(listing.map(|lines| lines.len()), Some(1));
    assert_eq!(selected.shape_type, ShapeType::Capsule);
}

#[test]
fn listing_key_on_the_empty_registry_returns_no_lines() {
    let manager = GameObjectManager::default();
    let mut selected = SelectedShape::default();
    assert_eq!(shape_selection_ui(&mut selected, false, true, &manager), Some(Vec::new()));
}

#[test]
fn position_reports_are_recorded_in_order() {
    let mut manager = GameObjectManager::default();
    for i in 0..3u64 {
        spawn_entity_system(
            &mut manager,
            &request(ShapeType::Ball, None),
            EntityRef { bits: i },
            0.0f64.to_bits(),
        );
    }
    let reports = vec![
        (EntityRef { bits: 1 }, point(1.0, 1.0, 1.0)),
        (EntityRef { bits: 7 }, point(9.0, 9.0, 9.0)),
        (EntityRef { bits: 2 }, point(2.0, 2.0, 2.0)),
        (EntityRef { bits: 1 }, point(1.5, 0.5, 1.5)),
    ];
    update_object_positions_system(&mut manager, &reports);
    let positions: Vec<Position> = manager.objects.iter().map(|o| o.position).collect();
    assert_eq!(
        positions,
        vec![point(2.0, 4.0, -1.0), point(1.5, 0.5, 1.5), point(2.0, 2.0, 2.0)]
    );
    assert_eq!(manager.objects.len(), 3);
    assert_eq!(manager.next_id, 3);
}
