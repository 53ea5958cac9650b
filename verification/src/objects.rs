//! The values that travel between the host and the registry: entity
//! references, positions, spawn requests, registered objects and the
//! identity tag that is attached to a spawned entity.

use vstd::prelude::*;
use crate::shapes::ShapeType;
use crate::text::{decimal, decimal_string};

verus! {

/// A reference to an entity of the host world. The host hands out the 64-bit
/// value that identifies the entity; two references name the same entity
/// exactly when their bits are equal. The registry never owns the entity.
#[derive(Debug, Clone, Copy, PartialEq, Eq, Hash, Structural)]
pub struct EntityRef {
    pub bits: u64,
}

/// A point in world space. Each coordinate is the IEEE-754 bit pattern of a
/// single-precision number; the registry stores and returns it untouched.
#[derive(Debug, Clone, Copy, PartialEq, Eq, Hash, Structural)]
pub struct Position {
    pub x: u32,
    pub y: u32,
    pub z: u32,
}

/// A request to spawn one object.
#[derive(Debug, Clone)]
pub struct SpawnEntityEvent {
    pub position: Position,
    pub shape_type: ShapeType,
    /// The name to give the object; without one the name is derived from the
    /// shape and the identifier.
    pub custom_name: Option<String>,
}

/// One live object of the registry.
#[derive(Debug, Clone)]
pub struct GameObject {
    pub id: u32,
    pub name: String,
    pub entity: EntityRef,
    pub shape_type: ShapeType,
    /// The position last reported for the entity.
    pub position: Position,
    /// The time of creation in seconds, as the bit pattern of a
    /// double-precision number.
    pub created_at: u64,
}

/// The identity tag that the host attaches to a spawned entity, so that the
/// entity can be matched with its registry entry later.
#[derive(Debug, Clone)]
pub struct GameObjectId {
    pub id: u32,
    pub name: String,
    pub shape_type: ShapeType,
    /// The time of creation in seconds, as the bit pattern of a
    /// double-precision number.
    pub created_at: u64,
}

/// What a `GameObject` holds, with its name as a sequence of characters.
pub struct ObjectView {
    pub id: u32,
    pub name: Seq<char>,
    pub entity: EntityRef,
    pub shape_type: ShapeType,
    pub position: Position,
    pub created_at: u64,
}

/// What a `SpawnEntityEvent` holds, with its name as a sequence of
/// characters.
pub struct SpawnView {
    pub position: Position,
    pub shape_type: ShapeType,
    pub custom_name: Option<Seq<char>>,
}

/// What a `GameObjectId` holds, with its name as a sequence of characters.
pub struct TagView {
    pub id: u32,
    pub name: Seq<char>,
    pub shape_type: ShapeType,
    pub created_at: u64,
}

impl View for GameObject {
    type V = ObjectView;

    open spec fn view(&self) -> ObjectView {
        ObjectView {
            id: self.id,
            name: self.name@,
            entity: self.entity,
            shape_type: self.shape_type,
            position: self.position,
            created_at: self.created_at,
        }
    }
}

impl DeepView for GameObject {
    type V = ObjectView;

    open spec fn deep_view(&self) -> ObjectView {
        self@
    }
}

impl View for SpawnEntityEvent {
    type V = SpawnView;

    open spec fn view(&self) -> SpawnView {
        SpawnView {
            position: self.position,
            shape_type: self.shape_type,
            custom_name: self.custom_name.deep_view(),
        }
    }
}

impl DeepView for SpawnEntityEvent {
    type V = SpawnView;

    open spec fn deep_view(&self) -> SpawnView {
        self@
    }
}

impl View for GameObjectId {
    type V = TagView;

    open spec fn view(&self) -> TagView {
        TagView {
            id: self.id,
            name: self.name@,
            shape_type: self.shape_type,
            created_at: self.created_at,
        }
    }
}

impl DeepView for GameObjectId {
    type V = TagView;

    open spec fn deep_view(&self) -> TagView {
        self@
    }
}

impl ObjectView {
    /// The identity tag of an object.
    pub open spec fn tag(self) -> TagView {
        TagView {
            id: self.id,
            name: self.name,
            shape_type: self.shape_type,
            created_at: self.created_at,
        }
    }
}

/// The name of an object that was given none: the label of its shape, a
/// space, and its identifier in decimal.
pub open spec fn default_name(shape_type: ShapeType, id: u32) -> Seq<char> {
    shape_type.label() + seq![' '] + decimal(id as nat)
}

/// The name under which an object is registered: the requested name where
/// there is one, the default name otherwise.
pub open spec fn object_name_of(shape_type: ShapeType, id: u32, custom_name: Option<Seq<char>>) -> Seq<
    char,
> {
    match custom_name {
        Some(n) => n,
        None => default_name(shape_type, id),
    }
}

/// Builds the name under which an object is registered.
pub fn object_name(shape_type: ShapeType, id: u32, custom_name: Option<String>) -> (name: String)
    ensures
        name@ == object_name_of(shape_type, id, custom_name.deep_view()),
{
    match custom_name {
        Some(n) => n,
        None => {
            proof {
                reveal_strlit(" ");
            }
            let mut name = String::from_str(shape_type.display_name());
            name.append(" ");
            let digits = decimal_string(id);
            name.append(digits.as_str());
            assert(name@ =~= default_name(shape_type, id));
            name
        },
    }
}

} // verus!
