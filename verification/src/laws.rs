//! What holds of the registry and of the selection whatever is done with
//! them, stated over the mathematical values that the contracts speak of.

use vstd::prelude::*;
use crate::objects::{EntityRef, Position};
use crate::registry::{
    carries_id, is_first_where, lemma_first_where_absent, lemma_first_where_found, refers_to,
    summary_line, RegistryView,
};
use crate::shapes::ShapeType;

verus! {

/// One change made to the registry.
pub enum Call {
    /// An object is registered.
    Spawn {
        entity: EntityRef,
        shape_type: ShapeType,
        position: Position,
        custom_name: Option<Seq<char>>,
        timestamp: u64,
    },
    /// The object of an entity is taken out.
    Remove { entity: EntityRef },
    /// The position of an entity is recorded.
    Move { entity: EntityRef, position: Position },
}

impl Call {
    /// The registry after this change.
    pub open spec fn apply(self, registry: RegistryView) -> RegistryView {
        match self {
            Call::Spawn { entity, shape_type, position, custom_name, timestamp } => {
                registry.with_object(entity, shape_type, position, custom_name, timestamp)
            },
            Call::Remove { entity } => registry.without_entity(entity),
            Call::Move { entity, position } => registry.with_position(entity, position),
        }
    }
}

/// The registry after the changes of `calls` were made to the empty
/// registry, one after the other.
pub open spec fn after(calls: Seq<Call>) -> RegistryView
    decreases calls.len(),
{
    if calls.len() == 0 {
        RegistryView::empty()
    } else {
        calls.last().apply(after(calls.drop_last()))
    }
}

/// The number of spawns among `calls`.
pub open spec fn spawns_in(calls: Seq<Call>) -> nat
    decreases calls.len(),
{
    if calls.len() == 0 {
        0
    } else if calls.last() is Spawn {
        spawns_in(calls.drop_last()) + 1
    } else {
        spawns_in(calls.drop_last())
    }
}

/// A spawn keeps the registry well formed: the new identifier is above
/// all that are live.
pub proof fn lemma_spawn_keeps_wf(
    registry: RegistryView,
    entity: EntityRef,
    shape_type: ShapeType,
    position: Position,
    custom_name: Option<Seq<char>>,
    timestamp: u64,
)
    requires
        registry.wf(),
        registry.next_id <= u32::MAX,
    ensures
        registry.with_object(entity, shape_type, position, custom_name, timestamp).wf(),
{
}

/// A removal keeps the registry well formed, and the counter where it was:
/// the identifier of the object that left is not handed out again.
pub proof fn lemma_removal_keeps_wf(registry: RegistryView, entity: EntityRef)
    requires
        registry.wf(),
    ensures
        registry.without_entity(entity).wf(),
        registry.without_entity(entity).next_id == registry.next_id,
{
}

/// A new position changes neither the identifiers nor the counter.
pub proof fn lemma_move_keeps_wf(registry: RegistryView, entity: EntityRef, position: Position)
    requires
        registry.wf(),
    ensures
        registry.with_position(entity, position).wf(),
        registry.with_position(entity, position).next_id == registry.next_id,
{
}

/// A part of a history holds no more spawns than the whole.
pub proof fn lemma_spawns_in_prefix(calls: Seq<Call>, k: int)
    requires
        0 <= k <= calls.len(),
    ensures
        spawns_in(calls.take(k)) <= spawns_in(calls),
    decreases calls.len(),
{
    if k == calls.len() {
        assert(calls.take(k) =~= calls);
    } else {
        assert(calls.drop_last().take(k) =~= calls.take(k));
        lemma_spawns_in_prefix(calls.drop_last(), k);
    }
}

/// Identifiers count the spawns. Whatever was spawned, removed and moved
/// since the registry was empty, the counter equals the number of spawns
/// so far and the registry is well formed.
pub proof fn lemma_counter_counts_spawns(calls: Seq<Call>)
    requires
        spawns_in(calls) <= u32::MAX,
    ensures
        after(calls).next_id == spawns_in(calls),
        after(calls).wf(),
    decreases calls.len(),
{
    if calls.len() > 0 {
        let before = after(calls.drop_last());
        lemma_counter_counts_spawns(calls.drop_last());
        match calls.last() {
            Call::Spawn { entity, shape_type, position, custom_name, timestamp } => {
                lemma_spawn_keeps_wf(before, entity, shape_type, position, custom_name, timestamp);
            },
            Call::Remove { entity } => {
                lemma_removal_keeps_wf(before, entity);
            },
            Call::Move { entity, position } => {
                lemma_move_keeps_wf(before, entity, position);
            },
        }
    }
}

/// The identifiers that spawns return are 0, 1, 2 and so on, in the order
/// of the spawns, whatever is removed or moved in between: the spawn at
/// place `k` of a history registers its object under the number of spawns
/// before it.
pub proof fn lemma_ids_are_consecutive(calls: Seq<Call>, k: int)
    requires
        spawns_in(calls) <= u32::MAX,
        0 <= k < calls.len(),
        calls[k] is Spawn,
    ensures
        after(calls.take(k)).next_id == spawns_in(calls.take(k)),
        after(calls.take(k + 1)).objects.last().id == spawns_in(calls.take(k)),
        after(calls.take(k + 1)).next_id == spawns_in(calls.take(k)) + 1,
{
    lemma_spawns_in_prefix(calls, k);
    lemma_counter_counts_spawns(calls.take(k));
    assert(calls.take(k + 1).drop_last() =~= calls.take(k));
    assert(calls.take(k + 1).last() == calls[k]);
}

/// An object that was just registered is found under the identifier it
/// got, with the values that were passed in.
pub proof fn lemma_find_added_by_id(
    registry: RegistryView,
    entity: EntityRef,
    shape_type: ShapeType,
    position: Position,
    custom_name: Option<Seq<char>>,
    timestamp: u64,
)
    requires
        registry.wf(),
        registry.next_id <= u32::MAX,
    ensures
        registry.with_object(entity, shape_type, position, custom_name, timestamp).find_by_id(
            registry.next_id as u32,
        ) == Some(registry.new_object(entity, shape_type, position, custom_name, timestamp)),
        registry.new_object(entity, shape_type, position, custom_name, timestamp).entity == entity,
        registry.new_object(entity, shape_type, position, custom_name, timestamp).shape_type
            == shape_type,
        registry.new_object(entity, shape_type, position, custom_name, timestamp).position
            == position,
        registry.new_object(entity, shape_type, position, custom_name, timestamp).created_at
            == timestamp,
        custom_name matches Some(name) ==> registry.new_object(
            entity,
            shape_type,
            position,
            custom_name,
            timestamp,
        ).name == name,
{
    let grown = registry.with_object(entity, shape_type, position, custom_name, timestamp);
    let last = registry.objects.len() as int;
    assert(is_first_where(grown.objects, carries_id(registry.next_id as u32), last)) by {
        assert forall|j: int| 0 <= j < last implies !carries_id(registry.next_id as u32)(
            #[trigger] grown.objects[j],
        ) by {
            assert(grown.objects[j] == registry.objects[j]);
        }
    }
    lemma_first_where_found(grown.objects, carries_id(registry.next_id as u32), last);
}

/// Removing an entity that no object refers to finds nothing and leaves
/// the registry as it was.
pub proof fn lemma_remove_absent(registry: RegistryView, entity: EntityRef)
    requires
        forall|i: int| 0 <= i < registry.objects.len() ==> registry.objects[i].entity != entity,
    ensures
        registry.find_by_entity(entity) is None,
        registry.without_entity(entity) == registry,
{
    lemma_first_where_absent(registry.objects, refers_to(entity));
}

/// Removing an entity that an object refers to returns the first such
/// object and leaves one object less, the others in their order.
pub proof fn lemma_remove_present(registry: RegistryView, entity: EntityRef, i: int)
    requires
        0 <= i < registry.objects.len(),
        registry.objects[i].entity == entity,
    ensures
        registry.index_of_entity(entity) matches Some(k) && {
            &&& 0 <= k <= i
            &&& registry.find_by_entity(entity) == Some(registry.objects[k])
            &&& registry.objects[k].entity == entity
            &&& registry.without_entity(entity).objects == registry.objects.remove(k)
        },
        registry.without_entity(entity).objects.len() == registry.objects.len() - 1,
{
    lemma_first_where_absent(registry.objects, refers_to(entity));
    assert(refers_to(entity)(registry.objects[i]));
    let k = registry.index_of_entity(entity)->0;
    assert(is_first_where(registry.objects, refers_to(entity), k));
    if i < k {
        assert(!refers_to(entity)(registry.objects[i]));
    }
}

/// Where no two live objects refer to the same entity, an entity that was
/// removed is found no more.
pub proof fn lemma_removed_is_gone(registry: RegistryView, entity: EntityRef)
    requires
        registry.entities_distinct(),
    ensures
        registry.without_entity(entity).find_by_entity(entity) is None,
        registry.without_entity(entity).entities_distinct(),
{
    let rest = registry.without_entity(entity);
    lemma_first_where_absent(registry.objects, refers_to(entity));
    if registry.index_of_entity(entity) is Some {
        let k = registry.index_of_entity(entity)->0;
        assert(is_first_where(registry.objects, refers_to(entity), k));
        assert forall|j: int| 0 <= j < rest.objects.len() implies !refers_to(entity)(
            #[trigger] rest.objects[j],
        ) by {
            if j < k {
                assert(rest.objects[j] == registry.objects[j]);
            } else {
                assert(rest.objects[j] == registry.objects[j + 1]);
            }
        }
        assert forall|a: int, b: int| 0 <= a < b < rest.objects.len() implies (
        #[trigger] rest.objects[a]).entity != (#[trigger] rest.objects[b]).entity by {
            let a0 = if a < k {
                a
            } else {
                a + 1
            };
            let b0 = if b < k {
                b
            } else {
                b + 1
            };
            assert(rest.objects[a] == registry.objects[a0]);
            assert(rest.objects[b] == registry.objects[b0]);
        }
    }
    lemma_first_where_absent(rest.objects, refers_to(entity));
}

/// A spawn for an entity that no live object refers to keeps the entities
/// of the live objects distinct.
pub proof fn lemma_spawn_keeps_entities_distinct(
    registry: RegistryView,
    entity: EntityRef,
    shape_type: ShapeType,
    position: Position,
    custom_name: Option<Seq<char>>,
    timestamp: u64,
)
    requires
        registry.entities_distinct(),
        forall|i: int| 0 <= i < registry.objects.len() ==> registry.objects[i].entity != entity,
    ensures
        registry.with_object(
            entity,
            shape_type,
            position,
            custom_name,
            timestamp,
        ).entities_distinct(),
{
    let grown = registry.with_object(entity, shape_type, position, custom_name, timestamp);
    assert forall|a: int, b: int| 0 <= a < b < grown.objects.len() implies (
    #[trigger] grown.objects[a]).entity != (#[trigger] grown.objects[b]).entity by {
        assert(grown.objects[a] == registry.objects[a]);
        if b < registry.objects.len() {
            assert(grown.objects[b] == registry.objects[b]);
        }
    }
}

/// The listing follows the order of the spawns: a spawn adds its line at
/// the end, and a removal takes one line out and leaves the others where
/// they were.
pub proof fn lemma_listing_keeps_spawn_order(
    registry: RegistryView,
    entity: EntityRef,
    shape_type: ShapeType,
    position: Position,
    custom_name: Option<Seq<char>>,
    timestamp: u64,
)
    ensures
        registry.summaries().len() == registry.objects.len(),
        forall|i: int|
            0 <= i < registry.objects.len() ==> #[trigger] registry.summaries()[i] == summary_line(
                registry.objects[i],
            ),
        registry.with_object(entity, shape_type, position, custom_name, timestamp).summaries()
            == registry.summaries().push(
            summary_line(registry.new_object(entity, shape_type, position, custom_name, timestamp)),
        ),
        registry.without_entity(entity).summaries() == match registry.index_of_entity(entity) {
            Some(k) => registry.summaries().remove(k),
            None => registry.summaries(),
        },
{
    let grown = registry.with_object(entity, shape_type, position, custom_name, timestamp);
    assert(grown.summaries() =~= registry.summaries().push(
        summary_line(registry.new_object(entity, shape_type, position, custom_name, timestamp)),
    ));
    lemma_first_where_absent(registry.objects, refers_to(entity));
    if registry.index_of_entity(entity) is Some {
        let k = registry.index_of_entity(entity)->0;
        assert(is_first_where(registry.objects, refers_to(entity), k));
        assert(registry.without_entity(entity).summaries() =~= registry.summaries().remove(k));
    }
}

/// Cycling through the whole catalog comes back to where it began: five
/// steps from any kind lead to that kind again, and fewer do not.
pub proof fn lemma_cycle_returns(kind: ShapeType)
    ensures
        kind.successor().successor().successor().successor().successor() == kind,
        kind.successor() != kind,
        kind.successor().successor() != kind,
        kind.successor().successor().successor() != kind,
        kind.successor().successor().successor().successor() != kind,
        ShapeType::catalog().len() == 5,
        ShapeType::catalog()[kind.index()] == kind,
{
    lemma_successors();
}

/// Each kind with the one that follows it.
pub proof fn lemma_successors()
    ensures
        ShapeType::Ball.successor() == ShapeType::Cube,
        ShapeType::Cube.successor() == ShapeType::Capsule,
        ShapeType::Capsule.successor() == ShapeType::Cylinder,
        ShapeType::Cylinder.successor() == ShapeType::Cone,
        ShapeType::Cone.successor() == ShapeType::Ball,
{
    let order = ShapeType::catalog();
    assert(order.len() == 5);
    assert(order[0] == ShapeType::Ball);
    assert(order[1] == ShapeType::Cube);
    assert(order[2] == ShapeType::Capsule);
    assert(order[3] == ShapeType::Cylinder);
    assert(order[4] == ShapeType::Cone);
}

} // verus!
