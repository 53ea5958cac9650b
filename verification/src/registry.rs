//! The object registry: the list of live objects in spawn order, and the
//! counter that hands out their identifiers.

use vstd::prelude::*;
use crate::objects::{object_name, object_name_of, EntityRef, GameObject, ObjectView, Position};
use crate::shapes::ShapeType;
use crate::text::{decimal, decimal_string};

verus! {

/// The index of the first element of `s` that satisfies `p`, if there is one.
pub open spec fn first_where(s: Seq<ObjectView>, p: spec_fn(ObjectView) -> bool) -> Option<int> {
    if exists|i: int| is_first_where(s, p, i) {
        Some(choose|i: int| is_first_where(s, p, i))
    } else {
        None
    }
}

/// `i` is an index into `s`, `s[i]` satisfies `p`, and nothing before it does.
pub open spec fn is_first_where(s: Seq<ObjectView>, p: spec_fn(ObjectView) -> bool, i: int) -> bool {
    &&& 0 <= i < s.len()
    &&& p(s[i])
    &&& forall|j: int| 0 <= j < i ==> !p(#[trigger] s[j])
}

/// The objects that refer to the entity `entity`.
pub open spec fn refers_to(entity: EntityRef) -> spec_fn(ObjectView) -> bool {
    |o: ObjectView| o.entity == entity
}

/// The objects that carry the identifier `id`.
pub open spec fn carries_id(id: u32) -> spec_fn(ObjectView) -> bool {
    |o: ObjectView| o.id == id
}

/// The objects of the shape kind `shape_type`.
pub open spec fn has_shape(shape_type: ShapeType) -> spec_fn(ObjectView) -> bool {
    |o: ObjectView| o.shape_type == shape_type
}

/// The line that lists one object: its name, then its identifier and the
/// label of its shape in parentheses.
pub open spec fn summary_line(o: ObjectView) -> Seq<char> {
    o.name + seq![' ', '(', 'I', 'D', ':', ' '] + decimal(o.id as nat) + seq![
        ',',
        ' ',
        'T',
        'y',
        'p',
        'e',
        ':',
        ' ',
    ] + o.shape_type.label() + seq![')']
}

/// The registry as a mathematical value.
pub struct RegistryView {
    /// The live objects, in the order in which they were spawned.
    pub objects: Seq<ObjectView>,
    /// The identifier that the next object gets.
    pub next_id: nat,
}

impl RegistryView {
    /// The registry before anything was spawned.
    pub open spec fn empty() -> RegistryView {
        RegistryView { objects: Seq::empty(), next_id: 0 }
    }

    /// Identifiers grow along the list and stay below the counter, so none
    /// occurs twice and none is handed out again.
    pub open spec fn wf(self) -> bool {
        &&& forall|i: int|
            0 <= i < self.objects.len() ==> (#[trigger] self.objects[i]).id < self.next_id
        &&& forall|i: int, j: int|
            0 <= i < j < self.objects.len() ==> (#[trigger] self.objects[i]).id < (
            #[trigger] self.objects[j]).id
    }

    /// No two live objects refer to the same entity.
    pub open spec fn entities_distinct(self) -> bool {
        forall|i: int, j: int|
            0 <= i < j < self.objects.len() ==> (#[trigger] self.objects[i]).entity != (
            #[trigger] self.objects[j]).entity
    }

    /// The place of the first object that refers to `entity`.
    pub open spec fn index_of_entity(self, entity: EntityRef) -> Option<int> {
        first_where(self.objects, refers_to(entity))
    }

    /// The place of the first object with the identifier `id`.
    pub open spec fn index_of_id(self, id: u32) -> Option<int> {
        first_where(self.objects, carries_id(id))
    }

    /// The first object that refers to `entity`.
    pub open spec fn find_by_entity(self, entity: EntityRef) -> Option<ObjectView> {
        match self.index_of_entity(entity) {
            Some(i) => Some(self.objects[i]),
            None => None,
        }
    }

    /// The first object with the identifier `id`.
    pub open spec fn find_by_id(self, id: u32) -> Option<ObjectView> {
        match self.index_of_id(id) {
            Some(i) => Some(self.objects[i]),
            None => None,
        }
    }

    /// The objects of one shape kind, in spawn order.
    pub open spec fn of_kind(self, shape_type: ShapeType) -> Seq<ObjectView> {
        self.objects.filter(has_shape(shape_type))
    }

    /// One line per object, in spawn order.
    pub open spec fn summaries(self) -> Seq<Seq<char>> {
        self.objects.map_values(|o: ObjectView| summary_line(o))
    }

    /// The object that a spawn with these values registers.
    pub open spec fn new_object(
        self,
        entity: EntityRef,
        shape_type: ShapeType,
        position: Position,
        custom_name: Option<Seq<char>>,
        timestamp: u64,
    ) -> ObjectView
        recommends
            self.next_id <= u32::MAX,
    {
        ObjectView {
            id: self.next_id as u32,
            name: object_name_of(shape_type, self.next_id as u32, custom_name),
            entity,
            shape_type,
            position,
            created_at: timestamp,
        }
    }

    /// The registry after a spawn: the new object stands last and the
    /// counter has moved on by one.
    pub open spec fn with_object(
        self,
        entity: EntityRef,
        shape_type: ShapeType,
        position: Position,
        custom_name: Option<Seq<char>>,
        timestamp: u64,
    ) -> RegistryView
        recommends
            self.next_id <= u32::MAX,
    {
        RegistryView {
            objects: self.objects.push(
                self.new_object(entity, shape_type, position, custom_name, timestamp),
            ),
            next_id: self.next_id + 1,
        }
    }

    /// The registry after the entity `entity` is gone: without the first
    /// object that referred to it, and unchanged where none did.
    pub open spec fn without_entity(self, entity: EntityRef) -> RegistryView {
        match self.index_of_entity(entity) {
            Some(i) => RegistryView { objects: self.objects.remove(i), next_id: self.next_id },
            None => self,
        }
    }

    /// The registry after the entity `entity` reported the position
    /// `position`: the first object that refers to it holds the new
    /// position, and nothing changes where none does.
    pub open spec fn with_position(self, entity: EntityRef, position: Position) -> RegistryView {
        match self.index_of_entity(entity) {
            Some(i) => RegistryView {
                objects: self.objects.update(
                    i,
                    ObjectView { position, ..self.objects[i] },
                ),
                next_id: self.next_id,
            },
            None => self,
        }
    }

    /// The registry after the entities of `entities` are gone, one after
    /// the other.
    pub open spec fn without_entities(self, entities: Seq<EntityRef>) -> RegistryView
        decreases entities.len(),
    {
        if entities.len() == 0 {
            self
        } else {
            self.without_entities(entities.drop_last()).without_entity(entities.last())
        }
    }

    /// The registry after the reports of `reports` were recorded, one
    /// after the other. A report is an entity with its new position.
    pub open spec fn with_positions(self, reports: Seq<(EntityRef, Position)>) -> RegistryView
        decreases reports.len(),
    {
        if reports.len() == 0 {
            self
        } else {
            self.with_positions(reports.drop_last()).with_position(
                reports.last().0,
                reports.last().1,
            )
        }
    }
}

/// An index at which `p` holds first is the one that `first_where` gives.
pub proof fn lemma_first_where_found(s: Seq<ObjectView>, p: spec_fn(ObjectView) -> bool, i: int)
    requires
        is_first_where(s, p, i),
    ensures
        first_where(s, p) == Some(i),
{
    let k = choose|k: int| is_first_where(s, p, k);
    assert(is_first_where(s, p, k));
    if k < i {
        assert(!p(s[k]));
    } else if i < k {
        assert(!p(s[i]));
    }
}

/// Where `p` holds of no element, `first_where` gives nothing; and where
/// it gives nothing, `p` holds of no element.
pub proof fn lemma_first_where_absent(s: Seq<ObjectView>, p: spec_fn(ObjectView) -> bool)
    ensures
        first_where(s, p) is None <==> forall|j: int| 0 <= j < s.len() ==> !p(#[trigger] s[j]),
{
    if exists|j: int| 0 <= j < s.len() && p(#[trigger] s[j]) {
        lemma_first_exists(s, p, s.len() as int);
    }
    if first_where(s, p) is Some {
        let k = choose|k: int| is_first_where(s, p, k);
        assert(p(s[k]));
    }
}

/// Among the first `n` elements of `s`, either none satisfies `p` or one
/// does so first.
proof fn lemma_first_exists(s: Seq<ObjectView>, p: spec_fn(ObjectView) -> bool, n: int)
    requires
        0 <= n <= s.len(),
    ensures
        (forall|j: int| 0 <= j < n ==> !p(#[trigger] s[j])) || exists|i: int|
            i < n && is_first_where(s, p, i),
    decreases n,
{
    if n > 0 {
        lemma_first_exists(s, p, n - 1);
        if forall|j: int| 0 <= j < n - 1 ==> !p(#[trigger] s[j]) {
            if p(s[n - 1]) {
                assert(is_first_where(s, p, n - 1));
            }
        }
    }
}

/// The registry of spawned objects.
pub struct GameObjectManager {
    /// The live objects, in the order in which they were spawned.
    pub objects: Vec<GameObject>,
    /// The identifier that the next object gets. It only ever grows.
    pub next_id: u32,
}

impl View for GameObjectManager {
    type V = RegistryView;

    open spec fn view(&self) -> RegistryView {
        RegistryView { objects: self.objects.deep_view(), next_id: self.next_id as nat }
    }
}

impl Default for GameObjectManager {
    /// The empty registry, whose first identifier is 0.
    fn default() -> (manager: GameObjectManager)
        ensures
            manager@ == RegistryView::empty(),
            manager@.wf(),
    {
        let manager = GameObjectManager { objects: Vec::new(), next_id: 0 };
        assert(manager@.objects =~= Seq::empty());
        manager
    }
}

impl GameObjectManager {
    /// Registers a spawned object under the next identifier and returns
    /// that identifier.
    pub fn add_object(
        &mut self,
        entity: EntityRef,
        shape_type: ShapeType,
        position: Position,
        custom_name: Option<String>,
        timestamp: u64,
    ) -> (id: u32)
        requires
            old(self).next_id < u32::MAX,
        ensures
            id == old(self).next_id,
            final(self)@ == old(self)@.with_object(
                entity,
                shape_type,
                position,
                custom_name.deep_view(),
                timestamp,
            ),
            old(self)@.wf() ==> final(self)@.wf(),
    {
        let id = self.next_id;
        let name = object_name(shape_type, id, custom_name);
        let game_object = GameObject {
            id,
            name,
            entity,
            shape_type,
            position,
            created_at: timestamp,
        };
        self.objects.push(game_object);
        self.next_id += 1;
        proof {
            let expected = old(self)@.with_object(
                entity,
                shape_type,
                position,
                custom_name.deep_view(),
                timestamp,
            );
            assert(self@.objects =~= expected.objects);
        }
        id
    }

    /// Registers a spawned object like `add_object`, unless the identifiers
    /// are used up: then nothing changes and nothing is returned.
    pub fn try_add_object(
        &mut self,
        entity: EntityRef,
        shape_type: ShapeType,
        position: Position,
        custom_name: Option<String>,
        timestamp: u64,
    ) -> (id: Option<u32>)
        ensures
            old(self).next_id < u32::MAX ==> id == Some(old(self).next_id) && final(self)@ == old(
                self,
            )@.with_object(entity, shape_type, position, custom_name.deep_view(), timestamp),
            old(self).next_id == u32::MAX ==> id is None && *final(self) == *old(self),
            old(self)@.wf() ==> final(self)@.wf(),
    {
        if self.next_id < u32::MAX {
            Some(self.add_object(entity, shape_type, position, custom_name, timestamp))
        } else {
            None
        }
    }

    /// The place of the first object that refers to `entity`.
    fn position_of_entity(&self, entity: EntityRef) -> (found: Option<usize>)
        ensures
            match found {
                Some(i) => self@.index_of_entity(entity) == Some(i as int) && i < self.objects.len(),
                None => self@.index_of_entity(entity) is None,
            },
    {
        let mut i: usize = 0;
        while i < self.objects.len()
            invariant
                i <= self.objects.len(),
                forall|j: int| 0 <= j < i ==> !refers_to(entity)(#[trigger] self@.objects[j]),
            decreases self.objects.len() - i,
        {
            if self.objects[i].entity == entity {
                proof {
                    lemma_first_where_found(self@.objects, refers_to(entity), i as int);
                }
                return Some(i);
            }
            i += 1;
        }
        proof {
            lemma_first_where_absent(self@.objects, refers_to(entity));
        }
        None
    }

    /// The place of the first object with the identifier `id`.
    fn position_of_id(&self, id: u32) -> (found: Option<usize>)
        ensures
            match found {
                Some(i) => self@.index_of_id(id) == Some(i as int) && i < self.objects.len(),
                None => self@.index_of_id(id) is None,
            },
    {
        let mut i: usize = 0;
        while i < self.objects.len()
            invariant
                i <= self.objects.len(),
                forall|j: int| 0 <= j < i ==> !carries_id(id)(#[trigger] self@.objects[j]),
            decreases self.objects.len() - i,
        {
            if self.objects[i].id == id {
                proof {
                    lemma_first_where_found(self@.objects, carries_id(id), i as int);
                }
                return Some(i);
            }
            i += 1;
        }
        proof {
            lemma_first_where_absent(self@.objects, carries_id(id));
        }
        None
    }

    /// Takes the first object that refers to `entity` out of the registry
    /// and returns it. Where no object refers to it, nothing is returned
    /// and nothing changes.
    pub fn remove_object(&mut self, entity: EntityRef) -> (removed: Option<GameObject>)
        ensures
            removed.deep_view() == old(self)@.find_by_entity(entity),
            final(self)@ == old(self)@.without_entity(entity),
            removed is None ==> *final(self) == *old(self),
            old(self)@.wf() ==> final(self)@.wf(),
    {
        match self.position_of_entity(entity) {
            Some(index) => {
                let removed = self.objects.remove(index);
                proof {
                    assert(self@.objects =~= old(self)@.objects.remove(index as int));
                }
                Some(removed)
            },
            None => None,
        }
    }

    /// The first object that refers to `entity`.
    pub fn get_object_by_entity(&self, entity: EntityRef) -> (found: Option<&GameObject>)
        ensures
            found.deep_view() == self@.find_by_entity(entity),
    {
        match self.position_of_entity(entity) {
            Some(index) => Some(&self.objects[index]),
            None => None,
        }
    }

    /// The first object with the identifier `id`.
    pub fn get_object_by_id(&self, id: u32) -> (found: Option<&GameObject>)
        ensures
            found.deep_view() == self@.find_by_id(id),
    {
        match self.position_of_id(id) {
            Some(index) => Some(&self.objects[index]),
            None => None,
        }
    }

    /// The objects of one shape kind, in spawn order.
    pub fn get_objects_by_type(&self, shape_type: ShapeType) -> (found: Vec<&GameObject>)
        ensures
            found.deep_view() == self@.of_kind(shape_type),
    {
        let mut found: Vec<&GameObject> = Vec::new();
        let mut i: usize = 0;
        while i < self.objects.len()
            invariant
                i <= self.objects.len(),
                found.deep_view() == self@.objects.take(i as int).filter(has_shape(shape_type)),
            decreases self.objects.len() - i,
        {
            let object = &self.objects[i];
            let ghost before = found.deep_view();
            if object.shape_type == shape_type {
                found.push(object);
                assert(found.deep_view() =~= before.push(object@));
            }
            proof {
                let seen = self@.objects.take(i as int);
                assert(self@.objects.take(i + 1) =~= seen.push(self@.objects[i as int]));
                seen.lemma_filter_push(self@.objects[i as int], has_shape(shape_type));
            }
            i += 1;
        }
        assert(self@.objects.take(i as int) =~= self@.objects);
        found
    }

    /// One line per object, in spawn order: the name, then the identifier
    /// and the label of the shape in parentheses.
    pub fn list_objects(&self) -> (lines: Vec<String>)
        ensures
            lines.deep_view() == self@.summaries(),
            lines@.len() == self@.objects.len(),
    {
        proof {
            reveal_strlit(" (ID: ");
            reveal_strlit(", Type: ");
            reveal_strlit(")");
        }
        let mut lines: Vec<String> = Vec::new();
        let mut i: usize = 0;
        while i < self.objects.len()
            invariant
                i <= self.objects.len(),
                lines@.len() == i,
                forall|j: int| 0 <= j < i ==> (#[trigger] lines@[j])@ == summary_line(self@.objects[j]),
                " (ID: "@ =~= seq![' ', '(', 'I', 'D', ':', ' '],
                ", Type: "@ =~= seq![',', ' ', 'T', 'y', 'p', 'e', ':', ' '],
                ")"@ =~= seq![')'],
            decreases self.objects.len() - i,
        {
            let object = &self.objects[i];
            let mut line = object.name.clone();
            line.append(" (ID: ");
            let digits = decimal_string(object.id);
            line.append(digits.as_str());
            line.append(", Type: ");
            line.append(object.shape_type.display_name());
            line.append(")");
            assert(line@ =~= summary_line(object@));
            lines.push(line);
            i += 1;
        }
        assert(lines.deep_view() =~= self@.summaries());
        lines
    }

    /// Records the position that the entity `entity` reported: the first
    /// object that refers to it holds `position` from now on. Where no
    /// object refers to it, nothing changes.
    pub fn update_position(&mut self, entity: EntityRef, position: Position)
        ensures
            final(self)@ == old(self)@.with_position(entity, position),
            old(self)@.index_of_entity(entity) is None ==> *final(self) == *old(self),
            old(self)@.wf() ==> final(self)@.wf(),
    {
        match self.position_of_entity(entity) {
            Some(index) => {
                self.objects[index].position = position;
                proof {
                    assert(self@.objects =~= old(self)@.with_position(entity, position).objects);
                }
            },
            None => {},
        }
    }
}

} // verus!
