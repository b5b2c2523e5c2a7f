//! The executable geometry and object types: 2D vectors, game objects,
//! and the colliders derived from them, each with a ghost view into the
//! model of [`crate::model`].

use vstd::prelude::*;

use crate::math::{div_nn, mul_wide_128};
use crate::model::{
    self, colliding, hitbox, obj_center, obj_collider, reset_object, v2, v2_add, v2_sub, ColliderV,
    ObjectV, Vec2V,
};
use crate::{MAX_COORD, MAX_GEOM, UNIT};

verus! {

/// Whether a point is within the coordinate range the segment tests
/// accept.
pub open spec fn in_geom(v: Vec2V) -> bool {
    -MAX_GEOM <= v.x <= MAX_GEOM && -MAX_GEOM <= v.y <= MAX_GEOM
}

/// Whether a collider's corners are within that range.
pub open spec fn collider_in_geom(c: ColliderV) -> bool {
    in_geom(c.min) && in_geom(c.max)
}

/// A coordinate in 2D space, in milli-units.
#[derive(Clone, Copy, Debug, PartialEq, Eq, Structural)]
pub struct Vec2 {
    pub x: i64,
    pub y: i64,
}

impl View for Vec2 {
    type V = Vec2V;

    open spec fn view(&self) -> Vec2V {
        Vec2V { x: self.x as int, y: self.y as int }
    }
}

impl Vec2 {
    pub fn new(x: i64, y: i64) -> (r: Vec2)
        ensures
            r@ == v2(x as int, y as int),
    {
        Vec2 { x, y }
    }

    pub fn set(&mut self, x: i64, y: i64)
        ensures
            final(self)@ == v2(x as int, y as int),
    {
        self.x = x;
        self.y = y;
    }

    /// Component-wise sum.
    pub fn add(self, other: Vec2) -> (r: Vec2)
        requires
            i64::MIN <= self.x + other.x <= i64::MAX,
            i64::MIN <= self.y + other.y <= i64::MAX,
        ensures
            r@ == v2_add(self@, other@),
    {
        Vec2 { x: self.x + other.x, y: self.y + other.y }
    }

    /// Component-wise sum, in place.
    pub fn add_assign(&mut self, other: Vec2)
        requires
            i64::MIN <= old(self).x + other.x <= i64::MAX,
            i64::MIN <= old(self).y + other.y <= i64::MAX,
        ensures
            final(self)@ == v2_add(old(self)@, other@),
    {
        *self = self.add(other);
    }

    /// Component-wise difference.
    pub fn sub(self, other: Vec2) -> (r: Vec2)
        requires
            i64::MIN <= self.x - other.x <= i64::MAX,
            i64::MIN <= self.y - other.y <= i64::MAX,
        ensures
            r@ == v2_sub(self@, other@),
    {
        Vec2 { x: self.x - other.x, y: self.y - other.y }
    }
}

/// The kind of a game object, fixed at creation; behavior dispatches on
/// it each tick.
#[derive(Clone, Copy, Debug, PartialEq, Eq, Structural)]
pub enum ObjectType {
    Ball,
    PaddleLeft,
    PaddleRight,
}

/// A game object: a kind, a box given by its top-left corner and size,
/// and the velocities the simulation steers it by.
#[derive(Clone, Copy, Debug, PartialEq, Eq, Structural)]
pub struct Object {
    pub obj_type: ObjectType,
    pub position: Vec2,
    pub size: Vec2,
    pub velocity: Vec2,
    pub max_velocity: Vec2,
}

impl View for Object {
    type V = ObjectV;

    open spec fn view(&self) -> ObjectV {
        ObjectV {
            obj_type: self.obj_type,
            position: self.position@,
            size: self.size@,
            velocity: self.velocity@,
            max_velocity: self.max_velocity@,
        }
    }
}

impl Object {
    /// A fresh object of the given kind with default properties: a unit
    /// box at the origin, at rest, with a two-unit speed cap.
    pub fn new(obj_type: ObjectType) -> (r: Object)
        ensures
            r@ == (ObjectV {
                obj_type,
                position: v2(0, 0),
                size: v2(UNIT as int, UNIT as int),
                velocity: v2(0, 0),
                max_velocity: v2(2 * UNIT, 2 * UNIT),
            }),
    {
        Object {
            obj_type,
            position: Vec2 { x: 0, y: 0 },
            size: Vec2 { x: UNIT, y: UNIT },
            velocity: Vec2 { x: 0, y: 0 },
            max_velocity: Vec2 { x: 2 * UNIT, y: 2 * UNIT },
        }
    }

    /// Builder-style size override: the same object with the given size.
    pub fn set_size(self, x: i64, y: i64) -> (r: Object)
        ensures
            r@ == (ObjectV { size: v2(x as int, y as int), ..self@ }),
    {
        let mut s = self;
        s.size.set(x, y);
        s
    }

    /// Return this object to its canonical state for a field of the given
    /// dimensions; the only way positions are initialized.
    pub fn reset(&mut self, width: i64, height: i64)
        requires
            0 <= width <= MAX_COORD,
            0 <= height <= MAX_COORD,
            0 <= old(self).size.x <= MAX_COORD,
            0 <= old(self).size.y <= MAX_COORD,
        ensures
            final(self)@ == reset_object(old(self)@, width as int, height as int),
    {
        match self.obj_type {
            ObjectType::Ball => {
                self.velocity.set(div_nn(width, 3200), 0);
                self.max_velocity.set(div_nn(width, 400), div_nn(height, 400));
                let half_x = div_nn(self.size.x, 2);
                let half_y = div_nn(self.size.y, 2);
                self.position.set(div_nn(width, 2) - half_x, div_nn(height, 2) - half_y);
            },
            ObjectType::PaddleLeft => {
                self.size.y = div_nn(height, 4);
                let half_y = div_nn(self.size.y, 2);
                self.position.set(div_nn(width, 20), div_nn(height, 2) - half_y);
            },
            ObjectType::PaddleRight => {
                self.size.y = div_nn(height, 4);
                let half_y = div_nn(self.size.y, 2);
                self.position.set(
                    div_nn(width * 19, 20) - self.size.x,
                    div_nn(height, 2) - half_y,
                );
            },
        }
    }

    /// The collider for this object's current box.
    pub fn get_collider(&self) -> (r: ObjectCollider)
        requires
            0 <= self.size.x,
            0 <= self.size.y,
            self.position.x + self.size.x <= i64::MAX,
            self.position.y + self.size.y <= i64::MAX,
        ensures
            r@ == obj_collider(self@),
    {
        ObjectCollider::new(self)
    }

    /// The center point of this object's box.
    pub fn get_center(&self) -> (r: Vec2)
        requires
            0 <= self.size.x,
            0 <= self.size.y,
            self.position.x + self.size.x <= i64::MAX,
            self.position.y + self.size.y <= i64::MAX,
        ensures
            r@ == obj_center(self@),
    {
        Vec2 {
            x: self.position.x + div_nn(self.size.x, 2),
            y: self.position.y + div_nn(self.size.y, 2),
        }
    }
}

/// Counter-clockwise orientation test for three points, exact over the
/// model's integers.
fn ccw(a: &Vec2, b: &Vec2, c: &Vec2) -> (r: bool)
    requires
        in_geom(a@),
        in_geom(b@),
        in_geom(c@),
    ensures
        r == model::ccw(a@, b@, c@),
{
    let lhs = mul_wide_128(c.y as i128 - a.y as i128, b.x as i128 - a.x as i128);
    let rhs = mul_wide_128(b.y as i128 - a.y as i128, c.x as i128 - a.x as i128);
    lhs > rhs
}

/// An axis-aligned bounding box with its cached center, recomputed from
/// an object each tick.
#[derive(Clone, Copy, Debug, PartialEq, Eq, Structural)]
pub struct ObjectCollider {
    pub min: Vec2,
    pub max: Vec2,
    pub center: Vec2,
}

impl View for ObjectCollider {
    type V = ColliderV;

    open spec fn view(&self) -> ColliderV {
        ColliderV { min: self.min@, max: self.max@, center: self.center@ }
    }
}

/// Boundary segment `k` of a collider, in the fixed hitbox order.
fn collider_segment(c: &ObjectCollider, k: usize) -> (r: (Vec2, Vec2))
    requires
        k < 4,
    ensures
        (r.0@, r.1@) == hitbox(c@)[k as int],
{
    match k {
        0 => (Vec2::new(c.min.x, c.min.y), Vec2::new(c.max.x, c.min.y)),
        1 => (Vec2::new(c.min.x, c.min.y), Vec2::new(c.min.x, c.max.y)),
        2 => (Vec2::new(c.min.x, c.max.y), Vec2::new(c.max.x, c.max.y)),
        _ => (Vec2::new(c.max.x, c.max.y), Vec2::new(c.max.x, c.min.y)),
    }
}

impl ObjectCollider {
    /// The collider of the given object: its corner, its corner plus its
    /// size, and its center.
    pub fn new(obj: &Object) -> (r: ObjectCollider)
        requires
            0 <= obj.size.x,
            0 <= obj.size.y,
            obj.position.x + obj.size.x <= i64::MAX,
            obj.position.y + obj.size.y <= i64::MAX,
        ensures
            r@ == obj_collider(obj@),
    {
        ObjectCollider {
            min: obj.position,
            max: obj.position.add(obj.size),
            center: obj.get_center(),
        }
    }

    /// The four boundary segments of this collider.
    pub fn get_hitbox(&self) -> (r: [[Vec2; 2]; 4])
        ensures
            forall|k: int|
                0 <= k < 4 ==> ((#[trigger] r@[k])@[0]@, r@[k]@[1]@) == hitbox(self@)[k],
    {
        let s0 = collider_segment(self, 0);
        let s1 = collider_segment(self, 1);
        let s2 = collider_segment(self, 2);
        let s3 = collider_segment(self, 3);
        [[s0.0, s0.1], [s1.0, s1.1], [s2.0, s2.1], [s3.0, s3.1]]
    }

    /// Edge-intersection collision test: whether some boundary segment of
    /// this collider properly crosses some boundary segment of the other.
    #[verifier::loop_isolation(false)]
    pub fn is_colliding(&self, other: &ObjectCollider) -> (r: bool)
        requires
            collider_in_geom(self@),
            collider_in_geom(other@),
        ensures
            r == colliding(self@, other@),
    {
        let mut found = false;
        for si in 0..4usize
            invariant
                found <==> exists|i: int, j: int|
                    0 <= i < si && 0 <= j < 4 && #[trigger] model::seg_pair_crosses(
                        self@,
                        other@,
                        i,
                        j,
                    ),
        {
            let (a, b) = collider_segment(self, si);
            for oi in 0..4usize
                invariant
                    found <==> exists|i: int, j: int|
                        ((0 <= i < si && 0 <= j < 4) || (i == si && 0 <= j < oi))
                            && #[trigger] model::seg_pair_crosses(self@, other@, i, j),
            {
                let (c, d) = collider_segment(other, oi);
                let intersect = ccw(&a, &c, &d) != ccw(&b, &c, &d) && ccw(&a, &b, &c) != ccw(
                    &a,
                    &b,
                    &d,
                );
                proof {
                    assert(intersect == model::seg_pair_crosses(self@, other@, si as int, oi as int));
                }
                if !found {
                    found = intersect;
                }
            }
        }
        found
    }
}

} // verus!
