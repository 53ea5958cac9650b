//! The shape catalog: the closed set of shape kinds, their order, their
//! labels and their default geometry.

use vstd::prelude::*;

verus! {

/// 0.3 as a single-precision bit pattern.
pub const THREE_TENTHS: u32 = 0x3e99_999a;

/// 0.5 as a single-precision bit pattern.
pub const HALF: u32 = 0x3f00_0000;

/// 1.0 as a single-precision bit pattern.
pub const ONE: u32 = 0x3f80_0000;

/// The collision geometry of a shape. Every dimension is the bit pattern of
/// a single-precision number, in world units.
#[derive(Debug, Clone, Copy, PartialEq, Eq, Structural)]
pub enum ColliderShape {
    Ball { radius: u32 },
    Cuboid { half_x: u32, half_y: u32, half_z: u32 },
    /// A capsule whose axis is the vertical one.
    CapsuleY { half_height: u32, radius: u32 },
    Cylinder { half_height: u32, radius: u32 },
    Cone { half_height: u32, radius: u32 },
}

/// The visual mesh of a shape. Every dimension is the bit pattern of a
/// single-precision number, in world units.
#[derive(Debug, Clone, Copy, PartialEq, Eq, Structural)]
pub enum MeshShape {
    Sphere { radius: u32 },
    Cube { side: u32 },
    Capsule { half_height: u32, radius: u32 },
    Cylinder { half_height: u32, radius: u32 },
    Cone { half_height: u32, radius: u32 },
}

/// The kinds of rigid body that can be spawned.
#[derive(Debug, Clone, Copy, PartialEq, Eq, Hash, Structural)]
pub enum ShapeType {
    Ball,
    Cube,
    Capsule,
    Cylinder,
    Cone,
}

impl ShapeType {
    /// The catalog in its fixed order, which is also the order of cycling.
    pub open spec fn catalog() -> Seq<ShapeType> {
        seq![
            ShapeType::Ball,
            ShapeType::Cube,
            ShapeType::Capsule,
            ShapeType::Cylinder,
            ShapeType::Cone,
        ]
    }

    /// The place of a kind in the catalog.
    pub open spec fn index(self) -> int {
        match self {
            ShapeType::Ball => 0,
            ShapeType::Cube => 1,
            ShapeType::Capsule => 2,
            ShapeType::Cylinder => 3,
            ShapeType::Cone => 4,
        }
    }

    /// The text shown for a kind.
    pub open spec fn label(self) -> Seq<char> {
        match self {
            ShapeType::Ball => seq!['B', 'a', 'l', 'l'],
            ShapeType::Cube => seq!['C', 'u', 'b', 'e'],
            ShapeType::Capsule => seq!['C', 'a', 'p', 's', 'u', 'l', 'e'],
            ShapeType::Cylinder => seq!['C', 'y', 'l', 'i', 'n', 'd', 'e', 'r'],
            ShapeType::Cone => seq!['C', 'o', 'n', 'e'],
        }
    }

    /// The kind that follows in the catalog, the first one after the last.
    pub open spec fn successor(self) -> ShapeType {
        Self::catalog()[(self.index() + 1) % (Self::catalog().len() as int)]
    }

    /// The default collision geometry of a kind.
    pub open spec fn collider(self) -> ColliderShape {
        match self {
            ShapeType::Ball => ColliderShape::Ball { radius: HALF },
            ShapeType::Cube => ColliderShape::Cuboid { half_x: HALF, half_y: HALF, half_z: HALF },
            ShapeType::Capsule => ColliderShape::CapsuleY { half_height: ONE, radius: THREE_TENTHS },
            ShapeType::Cylinder => ColliderShape::Cylinder { half_height: ONE, radius: HALF },
            ShapeType::Cone => ColliderShape::Cone { half_height: ONE, radius: HALF },
        }
    }

    /// The default visual mesh of a kind.
    pub open spec fn mesh(self) -> MeshShape {
        match self {
            ShapeType::Ball => MeshShape::Sphere { radius: HALF },
            ShapeType::Cube => MeshShape::Cube { side: ONE },
            ShapeType::Capsule => MeshShape::Capsule { half_height: ONE, radius: THREE_TENTHS },
            ShapeType::Cylinder => MeshShape::Cylinder { half_height: ONE, radius: HALF },
            ShapeType::Cone => MeshShape::Cone { half_height: ONE, radius: HALF },
        }
    }

    /// All kinds, in catalog order.
    pub fn all() -> (shapes: Vec<ShapeType>)
        ensures
            shapes@ == Self::catalog(),
    {
        let shapes = vec![
            ShapeType::Ball,
            ShapeType::Cube,
            ShapeType::Capsule,
            ShapeType::Cylinder,
            ShapeType::Cone,
        ];
        assert(shapes@ =~= Self::catalog());
        shapes
    }

    /// The label of a kind, for display.
    pub fn display_name(&self) -> (name: &'static str)
        ensures
            name@ == self.label(),
    {
        proof {
            reveal_strlit("Ball");
            reveal_strlit("Cube");
            reveal_strlit("Capsule");
            reveal_strlit("Cylinder");
            reveal_strlit("Cone");
        }
        let name = match self {
            ShapeType::Ball => "Ball",
            ShapeType::Cube => "Cube",
            ShapeType::Capsule => "Capsule",
            ShapeType::Cylinder => "Cylinder",
            ShapeType::Cone => "Cone",
        };
        assert(name@ =~= self.label());
        name
    }

    /// Describes the collider of a kind, with its default dimensions.
    pub fn create_collider(&self) -> (collider: ColliderShape)
        ensures
            collider == self.collider(),
    {
        match self {
            ShapeType::Ball => ColliderShape::Ball { radius: HALF },
            ShapeType::Cube => ColliderShape::Cuboid { half_x: HALF, half_y: HALF, half_z: HALF },
            ShapeType::Capsule => ColliderShape::CapsuleY { half_height: ONE, radius: THREE_TENTHS },
            ShapeType::Cylinder => ColliderShape::Cylinder { half_height: ONE, radius: HALF },
            ShapeType::Cone => ColliderShape::Cone { half_height: ONE, radius: HALF },
        }
    }

    /// Describes the visual mesh of a kind, with its default dimensions.
    pub fn create_mesh(&self) -> (mesh: MeshShape)
        ensures
            mesh == self.mesh(),
    {
        match self {
            ShapeType::Ball => MeshShape::Sphere { radius: HALF },
            ShapeType::Cube => MeshShape::Cube { side: ONE },
            ShapeType::Capsule => MeshShape::Capsule { half_height: ONE, radius: THREE_TENTHS },
            ShapeType::Cylinder => MeshShape::Cylinder { half_height: ONE, radius: HALF },
            ShapeType::Cone => MeshShape::Cone { half_height: ONE, radius: HALF },
        }
    }

    /// The kind that follows this one in the catalog; after the last kind
    /// comes the first.
    pub fn next(&self) -> (following: ShapeType)
        ensures
            following == self.successor(),
    {
        let shapes = ShapeType::all();
        let mut current_index: usize = 0;
        let mut i: usize = 0;
        while i < shapes.len()
            invariant_except_break
                i <= self.index(),
                current_index == 0,
            invariant
                shapes@ == Self::catalog(),
            ensures
                current_index == self.index(),
            decreases shapes.len() - i,
        {
            if shapes[i] == *self {
                current_index = i;
                break ;
            }
            i += 1;
        }
        let next_index = (current_index + 1) % shapes.len();
        shapes[next_index]
    }
}

/// The shape kind that the next spawn request asks for.
#[derive(Debug, Clone, Copy, PartialEq, Eq, Structural)]
pub struct SelectedShape {
    pub shape_type: ShapeType,
}

impl Default for SelectedShape {
    /// The selection at start: a ball.
    fn default() -> (selected: SelectedShape)
        ensures
            selected.shape_type == ShapeType::Ball,
    {
        SelectedShape { shape_type: ShapeType::Ball }
    }
}

impl SelectedShape {
    /// Moves the selection on to the next kind of the catalog.
    pub fn cycle(&mut self)
        ensures
            final(self).shape_type == old(self).shape_type.successor(),
    {
        self.shape_type = self.shape_type.next();
    }
}

} // verus!
