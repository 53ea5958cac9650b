//! The steps of one frame. The host polls the keys, creates and destroys
//! the entities and reads the clock; each step here takes what the host
//! found as plain values and decides what becomes of the selection and of
//! the registry.

use vstd::prelude::*;
use crate::objects::{
    object_name, EntityRef, GameObjectId, Position, SpawnEntityEvent, SpawnView,
};
use crate::registry::GameObjectManager;
use crate::shapes::{ColliderShape, MeshShape, SelectedShape, ShapeType};

verus! {

/// 4.0 as a single-precision bit pattern: the height at which a key press
/// spawns an object.
pub const SPAWN_HEIGHT: u32 = 0x4080_0000;

/// 0.7 as a single-precision bit pattern: the restitution of every spawned
/// object.
pub const RESTITUTION: u32 = 0x3f33_3333;

/// How a rigid body takes part in the simulation.
#[derive(Debug, Clone, Copy, PartialEq, Eq, Structural)]
pub enum BodyKind {
    /// Moved by forces and gravity.
    Dynamic,
    /// Never moved.
    Fixed,
}

/// What the host is asked to create for one spawn request.
#[derive(Debug, Clone, Copy, PartialEq, Eq, Structural)]
pub struct SpawnPlan {
    pub mesh: MeshShape,
    pub collider: ColliderShape,
    pub position: Position,
    pub body: BodyKind,
    /// The restitution coefficient, as a single-precision bit pattern.
    pub restitution: u32,
}

/// The name that a key press gives to the object it spawns.
pub open spec fn spawn_name() -> Seq<char> {
    seq!['b', 'o', 'b']
}

/// The request that a press of the spawn key makes, for the horizontal
/// offsets `x` and `z`.
pub open spec fn spawn_request(shape_type: ShapeType, x: u32, z: u32) -> SpawnView {
    SpawnView {
        position: Position { x, y: SPAWN_HEIGHT, z },
        shape_type,
        custom_name: Some(spawn_name()),
    }
}

/// The plan for an object of the kind `shape_type` at `position`: the
/// default mesh and collider of the kind, a dynamic body, the default
/// restitution.
pub open spec fn spawn_plan(shape_type: ShapeType, position: Position) -> SpawnPlan {
    SpawnPlan {
        mesh: shape_type.mesh(),
        collider: shape_type.collider(),
        position,
        body: BodyKind::Dynamic,
        restitution: RESTITUTION,
    }
}

impl SpawnEntityEvent {
    /// What the host has to create to fulfil this request.
    pub fn plan(&self) -> (plan: SpawnPlan)
        ensures
            plan == spawn_plan(self.shape_type, self.position),
    {
        SpawnPlan {
            mesh: self.shape_type.create_mesh(),
            collider: self.shape_type.create_collider(),
            position: self.position,
            body: BodyKind::Dynamic,
            restitution: RESTITUTION,
        }
    }
}

/// Turns a press of the spawn key into a spawn request for the selected
/// shape. `x` and `z` are the horizontal offsets that the host drew for
/// this press, as single-precision bit patterns.
pub fn handle_input(space_pressed: bool, selected_shape: &SelectedShape, x: u32, z: u32) -> (request:
    Option<SpawnEntityEvent>)
    ensures
        request.deep_view() == if space_pressed {
            Some(spawn_request(selected_shape.shape_type, x, z))
        } else {
            None
        },
{
    if space_pressed {
        proof {
            reveal_strlit("bob");
        }
        let name = String::from_str("bob");
        assert(name@ =~= spawn_name());
        Some(
            SpawnEntityEvent {
                position: Position { x, y: SPAWN_HEIGHT, z },
                shape_type: selected_shape.shape_type,
                custom_name: Some(name),
            },
        )
    } else {
        None
    }
}

/// Registers the entity that the host created for a spawn request, and
/// returns the identity tag to attach to it. Where the identifiers are used
/// up, nothing is registered and there is no tag.
pub fn spawn_entity_system(
    game_manager: &mut GameObjectManager,
    event: &SpawnEntityEvent,
    entity: EntityRef,
    timestamp: u64,
) -> (tag: Option<GameObjectId>)
    ensures
        old(game_manager).next_id < u32::MAX ==> {
            &&& final(game_manager)@ == old(game_manager)@.with_object(
                entity,
                event.shape_type,
                event.position,
                event.custom_name.deep_view(),
                timestamp,
            )
            &&& tag.deep_view() == Some(final(game_manager)@.objects.last().tag())
        },
        old(game_manager).next_id == u32::MAX ==> tag is None && *final(game_manager) == *old(
            game_manager,
        ),
{
    let registered = game_manager.try_add_object(
        entity,
        event.shape_type,
        event.position,
        clone_name(&event.custom_name),
        timestamp,
    );
    match registered {
        Some(object_id) => {
            let name = object_name(event.shape_type, object_id, clone_name(&event.custom_name));
            Some(
                GameObjectId {
                    id: object_id,
                    name,
                    shape_type: event.shape_type,
                    created_at: timestamp,
                },
            )
        },
        None => None,
    }
}

/// A copy of an optional name.
fn clone_name(name: &Option<String>) -> (copy: Option<String>)
    ensures
        copy.deep_view() == name.deep_view(),
{
    match name {
        Some(n) => Some(n.clone()),
        None => None,
    }
}

/// Takes out of the registry the objects of the entities that were
/// destroyed, in the order in which the host reports them. An entity that
/// the registry does not know is passed over.
pub fn cleanup_destroyed_entities_system(
    removed: &Vec<EntityRef>,
    game_manager: &mut GameObjectManager,
)
    ensures
        final(game_manager)@ == old(game_manager)@.without_entities(removed@),
{
    let mut i: usize = 0;
    while i < removed.len()
        invariant
            i <= removed.len(),
            game_manager@ == old(game_manager)@.without_entities(removed@.take(i as int)),
        decreases removed.len() - i,
    {
        game_manager.remove_object(removed[i]);
        proof {
            assert(removed@.take(i + 1).drop_last() =~= removed@.take(i as int));
        }
        i += 1;
    }
    assert(removed@.take(i as int) =~= removed@);
}

/// Applies the commands of one frame: a press of the cycle key moves the
/// selection on, and a press of the listing key asks for the listing of the
/// registry, which is returned for the host to show.
pub fn shape_selection_ui(
    selected_shape: &mut SelectedShape,
    tab_pressed: bool,
    list_pressed: bool,
    game_manager: &GameObjectManager,
) -> (listing: Option<Vec<String>>)
    ensures
        final(selected_shape).shape_type == if tab_pressed {
            old(selected_shape).shape_type.successor()
        } else {
            old(selected_shape).shape_type
        },
        listing.deep_view() == if list_pressed {
            Some(game_manager@.summaries())
        } else {
            None
        },
{
    if tab_pressed {
        selected_shape.cycle();
    }
    if list_pressed {
        Some(game_manager.list_objects())
    } else {
        None
    }
}

/// Records the positions of the entities that moved, in the order in which
/// the host reports them. An entity that the registry does not know is
/// passed over.
pub fn update_object_positions_system(
    game_manager: &mut GameObjectManager,
    changed: &Vec<(EntityRef, Position)>,
)
    ensures
        final(game_manager)@ == old(game_manager)@.with_positions(changed@),
{
    let mut i: usize = 0;
    while i < changed.len()
        invariant
            i <= changed.len(),
            game_manager@ == old(game_manager)@.with_positions(changed@.take(i as int)),
        decreases changed.len() - i,
    {
        let (entity, position) = changed[i];
        game_manager.update_position(entity, position);
        proof {
            assert(changed@.take(i + 1).drop_last() =~= changed@.take(i as int));
        }
        i += 1;
    }
    assert(changed@.take(i as int) =~= changed@);
}

} // verus!
