//! Tests for the geometry primitives: vectors, colliders, hitboxes, and
//! the edge-intersection collision test.

use pong::structs::{Object, ObjectCollider, ObjectType, Vec2};

#[test]
fn vec2_new_and_set() {
    let mut v = Vec2::new(3, -4);
    assert_eq!(v.x, 3);
    assert_eq!(v.y, -4);
    v.set(10, 20);
    assert_eq!(v, Vec2::new(10, 20));
}

#[test]
fn vec2_add_sub() {
    let a = Vec2::new(5, -7);
    let b = Vec2::new(2, 9);
    assert_eq!(a.add(b), Vec2::new(7, 2));
    assert_eq!(a.sub(b), Vec2::new(3, -16));
    let mut c = a;
    c.add_assign(b);
    assert_eq!(c, Vec2::new(7, 2));
}

#[test]
fn object_defaults() {
    let o = Object::new(ObjectType::Ball);
    assert_eq!(o.position, Vec2::new(0, 0));
    assert_eq!(o.size, Vec2::new(1000, 1000));
    assert_eq!(o.velocity, Vec2::new(0, 0));
    assert_eq!(o.max_velocity, Vec2::new(2000, 2000));
}

#[test]
fn object_set_size_chains() {
    let o = Object::new(ObjectType::PaddleLeft).set_size(25_000, 100_000);
    assert_eq!(o.size, Vec2::new(25_000, 100_000));
    assert_eq!(o.obj_type, ObjectType::PaddleLeft);
}

#[test]
fn object_center_and_collider() {
    let o = Object::new(ObjectType::Ball).set_size(25_000, 25_000);
    let center = o.get_center();
    assert_eq!(center, Vec2::new(12_500, 12_500));
    let c = o.get_collider();
    assert_eq!(c.min, Vec2::new(0, 0));
    assert_eq!(c.max, Vec2::new(25_000, 25_000));
    assert_eq!(c.center, Vec2::new(12_500, 12_500));
}

#[test]
fn hitbox_lists_the_four_edges() {
    let o = Object::new(ObjectType::Ball).set_size(10, 20);
    let hb = o.get_collider().get_hitbox();
    assert_eq!(hb[0], [Vec2::new(0, 0), Vec2::new(10, 0)]);
    assert_eq!(hb[1], [Vec2::new(0, 0), Vec2::new(0, 20)]);
    assert_eq!(hb[2], [Vec2::new(0, 20), Vec2::new(10, 20)]);
    assert_eq!(hb[3], [Vec2::new(10, 20), Vec2::new(10, 0)]);
}

fn collider(min_x: i64, min_y: i64, max_x: i64, max_y: i64) -> ObjectCollider {
    ObjectCollider {
        min: Vec2::new(min_x, min_y),
        max: Vec2::new(max_x, max_y),
        center: Vec2::new(min_x + (max_x - min_x) / 2, min_y + (max_y - min_y) / 2),
    }
}

#[test]
fn overlapping_boxes_collide() {
    // A ball's box against a paddle's box that it straddles.
    let ball = collider(100, 100, 125, 125);
    let paddle = collider(90, 80, 115, 220);
    assert!(ball.is_colliding(&paddle));
    assert!(paddle.is_colliding(&ball));
}

#[test]
fn distant_boxes_do_not_collide() {
    let a = collider(0, 0, 10, 10);
    let b = collider(100, 100, 120, 120);
    assert!(!a.is_colliding(&b));
    assert!(!b.is_colliding(&a));
}

#[test]
fn contained_box_has_no_edge_crossing() {
    // Edge intersection deliberately reports no collision when one box
    // fully engulfs the other: no boundary segments cross.
    let outer = collider(0, 0, 100, 100);
    let inner = collider(40, 40, 60, 60);
    assert!(!outer.is_colliding(&inner));
    assert!(!inner.is_colliding(&outer));
}
