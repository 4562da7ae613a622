//! Axis-aligned boxes, the static obstacles of the arena, and the
//! axis-separated resolution of a player's movement against them.
//!
//! Lengths are fixed-point: `MILLI` units make one world unit.
use vstd::prelude::*;

verus! {

/// Fixed-point units per world unit.
pub const MILLI: i32 = 1000;

/// Width and depth of a player's body.
pub const PLAYER_UNIT: i32 = 1000;

/// Height of a player's body.
pub const PLAYER_HEIGHT: i32 = 3500;

/// A point on the ground plane.
#[derive(PartialEq, Eq, Structural, Debug, Clone, Copy)]
pub struct Planar {
    pub x: i32,
    pub z: i32,
}

/// A point in space.
#[derive(PartialEq, Eq, Structural, Debug, Clone, Copy)]
pub struct Point3 {
    pub x: i32,
    pub y: i32,
    pub z: i32,
}

/// The extent of a box along each axis.
#[derive(PartialEq, Eq, Structural, Debug, Clone, Copy)]
pub struct Size3 {
    pub x: u32,
    pub y: u32,
    pub z: u32,
}

/// A closed axis-aligned box.
#[derive(PartialEq, Eq, Structural, Debug, Clone, Copy)]
pub struct BoundingBox {
    pub min_x: i64,
    pub min_y: i64,
    pub min_z: i64,
    pub max_x: i64,
    pub max_y: i64,
    pub max_z: i64,
}

/// What a box is, for the renderer to colour it by.
#[derive(PartialEq, Eq, Structural, Debug, Clone, Copy)]
pub enum Surface {
    Wall,
    Block,
    Body,
}

/// A box given by its centre and size.
#[derive(PartialEq, Eq, Structural, Debug, Clone, Copy)]
pub struct Cuboid {
    pub pos: Point3,
    pub size: Size3,
    pub surface: Surface,
}

/// Two closed boxes share at least one point.
pub open spec fn overlaps(a: BoundingBox, b: BoundingBox) -> bool {
    &&& a.min_x <= b.max_x && b.min_x <= a.max_x
    &&& a.min_y <= b.max_y && b.min_y <= a.max_y
    &&& a.min_z <= b.max_z && b.min_z <= a.max_z
}

pub open spec fn cuboid_box(c: Cuboid) -> BoundingBox {
    BoundingBox {
        min_x: (c.pos.x - c.size.x / 2) as i64,
        min_y: (c.pos.y - c.size.y / 2) as i64,
        min_z: (c.pos.z - c.size.z / 2) as i64,
        max_x: (c.pos.x + c.size.x / 2) as i64,
        max_y: (c.pos.y + c.size.y / 2) as i64,
        max_z: (c.pos.z + c.size.z / 2) as i64,
    }
}

/// The body of a player standing at `(x, z)`: a square column from the
/// ground to the player's height.
pub open spec fn mover_box(x: int, z: int) -> BoundingBox {
    BoundingBox {
        min_x: (x - PLAYER_UNIT / 2) as i64,
        min_y: 0,
        min_z: (z - PLAYER_UNIT / 2) as i64,
        max_x: (x + PLAYER_UNIT / 2) as i64,
        max_y: PLAYER_HEIGHT as i64,
        max_z: (z + PLAYER_UNIT / 2) as i64,
    }
}

/// Some obstacle overlaps `b`.
pub open spec fn blocked(b: BoundingBox, objects: Seq<Cuboid>) -> bool {
    exists|i: int| 0 <= i < objects.len() && overlaps(b, #[trigger] cuboid_box(objects[i]))
}

/// The displacement that survives collision: each axis is tried alone from
/// `pos`, and dropped where the moved body would touch an obstacle.
pub open spec fn resolved(pos: Planar, d: Planar, objects: Seq<Cuboid>) -> Planar {
    Planar {
        x: if blocked(mover_box(pos.x + d.x, pos.z as int), objects) {
            0
        } else {
            d.x
        },
        z: if blocked(mover_box(pos.x as int, pos.z + d.z), objects) {
            0
        } else {
            d.z
        },
    }
}

/// raylib's box test: closed boxes that share a point collide.
pub fn check_collision_boxes(a: &BoundingBox, b: &BoundingBox) -> (r: bool)
    ensures
        r == overlaps(*a, *b),
{
    a.max_x >= b.min_x && a.min_x <= b.max_x && a.max_y >= b.min_y && a.min_y <= b.max_y
        && a.max_z >= b.min_z && a.min_z <= b.max_z
}

impl Cuboid {
    pub fn new(pos: Point3, size: Size3, surface: Surface) -> (r: Cuboid)
        ensures
            r == (Cuboid { pos, size, surface }),
    {
        Cuboid { pos, size, surface }
    }

    pub fn get_bounding_box(&self) -> (r: BoundingBox)
        ensures
            r == cuboid_box(*self),
    {
        let half_x = (self.size.x / 2) as i64;
        let half_y = (self.size.y / 2) as i64;
        let half_z = (self.size.z / 2) as i64;
        BoundingBox {
            min_x: self.pos.x as i64 - half_x,
            min_y: self.pos.y as i64 - half_y,
            min_z: self.pos.z as i64 - half_z,
            max_x: self.pos.x as i64 + half_x,
            max_y: self.pos.y as i64 + half_y,
            max_z: self.pos.z as i64 + half_z,
        }
    }

    pub fn move_to(&mut self, new_pos: Point3)
        ensures
            *final(self) == (Cuboid { pos: new_pos, ..*old(self) }),
    {
        self.pos = new_pos;
    }
}

/// The body of a player standing at `(x, z)`.
pub fn player_bounding_box(x: i64, z: i64) -> (r: BoundingBox)
    requires
        i32::MIN as i64 * 2 <= x <= i32::MAX as i64 * 2,
        i32::MIN as i64 * 2 <= z <= i32::MAX as i64 * 2,
    ensures
        r == mover_box(x as int, z as int),
{
    let half = (PLAYER_UNIT / 2) as i64;
    BoundingBox {
        min_x: x - half,
        min_y: 0,
        min_z: z - half,
        max_x: x + half,
        max_y: PLAYER_HEIGHT as i64,
        max_z: z + half,
    }
}

/// Whether some obstacle overlaps `b`.
pub fn collides(b: &BoundingBox, objects: &Vec<Cuboid>) -> (r: bool)
    ensures
        r == blocked(*b, objects@),
{
    let mut i: usize = 0;
    while i < objects.len()
        invariant
            i <= objects@.len(),
            forall|j: int| 0 <= j < i ==> !overlaps(*b, #[trigger] cuboid_box(objects@[j])),
        decreases objects@.len() - i,
    {
        let obstacle = objects[i].get_bounding_box();
        if check_collision_boxes(b, &obstacle) {
            return true;
        }
        i = i + 1;
    }
    false
}

/// Resolves one frame's displacement against the obstacles, one axis at a
/// time, so that a body grazing a wall along one axis still slides along the
/// other.
pub fn displacement_after_collision(pos: Planar, displacement: Planar, objects: &Vec<Cuboid>) -> (r:
    Planar)
    ensures
        r == resolved(pos, displacement, objects@),
{
    let mut out = displacement;
    let moved_x = player_bounding_box(pos.x as i64 + displacement.x as i64, pos.z as i64);
    if collides(&moved_x, objects) {
        out.x = 0;
    }
    let moved_z = player_bounding_box(pos.x as i64, pos.z as i64 + displacement.z as i64);
    if collides(&moved_z, objects) {
        out.z = 0;
    }
    out
}

/// The resolver never lets the body end up inside an obstacle along an axis
/// it moved on, and a body that starts clear stays clear on each axis; each
/// axis keeps its motion or drops it, and keeps it whenever moving along that
/// axis alone touches nothing.
pub proof fn lemma_resolution_keeps_clear(pos: Planar, d: Planar, objects: Seq<Cuboid>)
    ensures
        ({
            let r = resolved(pos, d, objects);
            &&& r.x == d.x || r.x == 0
            &&& r.z == d.z || r.z == 0
            &&& r.x != 0 ==> !blocked(mover_box(pos.x + r.x, pos.z as int), objects)
            &&& r.z != 0 ==> !blocked(mover_box(pos.x as int, pos.z + r.z), objects)
            &&& !blocked(mover_box(pos.x as int, pos.z as int), objects) ==> {
                &&& !blocked(mover_box(pos.x + r.x, pos.z as int), objects)
                &&& !blocked(mover_box(pos.x as int, pos.z + r.z), objects)
            }
            &&& !blocked(mover_box(pos.x + d.x, pos.z as int), objects) ==> r.x == d.x
            &&& !blocked(mover_box(pos.x as int, pos.z + d.z), objects) ==> r.z == d.z
        }),
{
}

/// What happens on one axis does not depend on the motion proposed on the
/// other: zeroing one axis never takes the other's motion away.
pub proof fn lemma_axes_independent(pos: Planar, d1: Planar, d2: Planar, objects: Seq<Cuboid>)
    ensures
        d1.x == d2.x ==> resolved(pos, d1, objects).x == resolved(pos, d2, objects).x,
        d1.z == d2.z ==> resolved(pos, d1, objects).z == resolved(pos, d2, objects).z,
{
}

} // verus!
