//! Engine-wide guarantees, each proved once and for all over the model
//! of [`crate::model`].

use vstd::math::abs;
use vstd::prelude::*;

use crate::model::{
    ai_is_incoming, ai_target_y, ball_collisions, ball_out_of_bounds, bounce_velocity, clamp,
    colliding, div_trunc, obj_center, obj_collider, projected_collider, reset_object, step_ball,
    step_paddle, tick, tick_delta, update_state, v2, v2_add, v2_neg, v2_sub, ColliderV,
    GameStateV, ObjectV, Vec2V,
};
use crate::structs::ObjectType;
use crate::UNIT;

verus! {

/// A size that fits a span is still centered within it after halving:
/// `d/2 - s/2` and `d/2 - s/2 + s` both lie in `[0, d]`.
proof fn lemma_centered_fits(s: int, d: int)
    requires
        0 <= s <= d,
    ensures
        0 <= d / 2 - s / 2,
        d / 2 - s / 2 + s <= d,
{
    vstd::arithmetic::div_mod::lemma_div_is_ordered(s, d, 2);
    vstd::arithmetic::div_mod::lemma_fundamental_div_mod(s, 2);
    vstd::arithmetic::div_mod::lemma_fundamental_div_mod(d, 2);
}

/// Bounds: an object that fits the field lies entirely within
/// `[0, w] x [0, h]` after a reset — the ball needs a box no larger than
/// the field, a paddle a width of at most the nineteen-twentieths of it
/// that its inset leaves free.
pub proof fn lemma_reset_in_bounds(o: ObjectV, w: int, h: int)
    requires
        0 < w,
        0 < h,
        0 <= o.size.x,
        0 <= o.size.y,
        o.obj_type == ObjectType::Ball ==> o.size.x <= w && o.size.y <= h,
        o.obj_type != ObjectType::Ball ==> 20 * o.size.x <= 19 * w,
    ensures
        0 <= obj_collider(reset_object(o, w, h)).min.x,
        obj_collider(reset_object(o, w, h)).max.x <= w,
        0 <= obj_collider(reset_object(o, w, h)).min.y,
        obj_collider(reset_object(o, w, h)).max.y <= h,
{
    vstd::arithmetic::div_mod::lemma_div_pos_is_pos(h, 4);
    vstd::arithmetic::div_mod::lemma_div_is_ordered(h, 4 * h, 4);
    vstd::arithmetic::div_mod::lemma_div_multiples_vanish(h, 4);
    lemma_centered_fits(h / 4, h);
    match o.obj_type {
        ObjectType::Ball => {
            lemma_centered_fits(o.size.x, w);
            lemma_centered_fits(o.size.y, h);
        },
        ObjectType::PaddleLeft | ObjectType::PaddleRight => {
            vstd::arithmetic::div_mod::lemma_fundamental_div_mod(w, 20);
            vstd::arithmetic::div_mod::lemma_mod_division_less_than_divisor(w, 20);
            vstd::arithmetic::div_mod::lemma_fundamental_div_mod(w * 19, 20);
            vstd::arithmetic::div_mod::lemma_mod_division_less_than_divisor(w * 19, 20);
        },
    }
}

/// Bounds for the whole collection: after resetting every object of a
/// fitting size, every collider lies within `[0, w] x [0, h]`.
pub proof fn lemma_reset_objects_in_bounds(objs: Seq<ObjectV>, w: int, h: int)
    requires
        0 < w,
        0 < h,
        forall|i: int| 0 <= i < objs.len() ==> {
            &&& 0 <= (#[trigger] objs[i]).size.x
            &&& 0 <= objs[i].size.y
            &&& (objs[i].obj_type == ObjectType::Ball ==> objs[i].size.x <= w && objs[i].size.y
                <= h)
            &&& (objs[i].obj_type != ObjectType::Ball ==> 20 * objs[i].size.x <= 19 * w)
        },
    ensures
        forall|i: int| 0 <= i < objs.len() ==> {
            let c = obj_collider(reset_object(#[trigger] objs[i], w, h));
            0 <= c.min.x && c.max.x <= w && 0 <= c.min.y && c.max.y <= h
        },
{
    assert forall|i: int| 0 <= i < objs.len() implies {
        let c = obj_collider(reset_object(#[trigger] objs[i], w, h));
        0 <= c.min.x && c.max.x <= w && 0 <= c.min.y && c.max.y <= h
    } by {
        lemma_reset_in_bounds(objs[i], w, h);
    }
}

/// Velocity clamp: a paddle bounce leaves the ball's speed within its
/// caps — exactly within the horizontal cap, and within a vertical cap of
/// at least one unit per millisecond (the full deflection a strike can
/// give; a shorter field's reset sets a smaller cap than that, which a
/// strike may then exceed).
pub proof fn lemma_bounce_velocity_clamped(vel: Vec2V, max_vel: Vec2V, ball_cy: int, other_cy: int)
    requires
        0 <= max_vel.x,
        UNIT <= max_vel.y,
    ensures
        abs(bounce_velocity(vel, max_vel, ball_cy, other_cy).x) <= max_vel.x,
        abs(bounce_velocity(vel, max_vel, ball_cy, other_cy).y) <= max_vel.y,
{
}

/// Velocity clamp across a whole tick: however many objects the ball's
/// projected collider crossed this tick, if it crossed at least one, the
/// velocity that comes out of the collision pass is within the caps.
pub proof fn lemma_collision_pass_velocity_clamped(
    objs: Seq<ObjectV>,
    i: int,
    proj: ColliderV,
    ball_center: Vec2V,
    vel: Vec2V,
    max_vel: Vec2V,
    delta: Vec2V,
    upto: int,
)
    requires
        0 <= max_vel.x,
        UNIT <= max_vel.y,
        exists|o: int| 0 <= o < upto && o != i && colliding(proj, obj_collider(#[trigger] objs[o])),
    ensures
        abs(ball_collisions(objs, i, proj, ball_center, vel, max_vel, delta, upto).0.x)
            <= max_vel.x,
        abs(ball_collisions(objs, i, proj, ball_center, vel, max_vel, delta, upto).0.y)
            <= max_vel.y,
    decreases upto,
{
    let o = choose|o: int| 0 <= o < upto && o != i && colliding(
        proj,
        obj_collider(#[trigger] objs[o]),
    );
    let prev = ball_collisions(objs, i, proj, ball_center, vel, max_vel, delta, upto - 1);
    if upto - 1 != i && colliding(proj, obj_collider(objs[upto - 1])) {
        lemma_bounce_velocity_clamped(prev.0, max_vel, ball_center.y, obj_center(objs[upto - 1]).y);
    } else {
        assert(0 <= o < upto - 1);
        lemma_collision_pass_velocity_clamped(
            objs,
            i,
            proj,
            ball_center,
            vel,
            max_vel,
            delta,
            upto - 1,
        );
    }
}

/// A collision pass that crosses nothing leaves the velocity and the
/// displacement alone.
proof fn lemma_no_collision_identity(
    objs: Seq<ObjectV>,
    i: int,
    proj: ColliderV,
    ball_center: Vec2V,
    vel: Vec2V,
    max_vel: Vec2V,
    delta: Vec2V,
    upto: int,
)
    requires
        forall|j: int|
            0 <= j < upto && j != i ==> !colliding(proj, obj_collider(#[trigger] objs[j])),
    ensures
        ball_collisions(objs, i, proj, ball_center, vel, max_vel, delta, upto) == (vel, delta),
    decreases upto,
{
    if upto > 0 {
        lemma_no_collision_identity(objs, i, proj, ball_center, vel, max_vel, delta, upto - 1);
    }
}

/// A collision pass with exactly one crossing is exactly one bounce, and
/// exactly one recoil of the displacement.
proof fn lemma_single_collision_fold(
    objs: Seq<ObjectV>,
    i: int,
    o: int,
    proj: ColliderV,
    ball_center: Vec2V,
    vel: Vec2V,
    max_vel: Vec2V,
    delta: Vec2V,
    upto: int,
)
    requires
        0 <= o < upto,
        o != i,
        colliding(proj, obj_collider(objs[o])),
        forall|j: int|
            0 <= j < upto && j != i && j != o ==> !colliding(
                proj,
                obj_collider(#[trigger] objs[j]),
            ),
    ensures
        ball_collisions(objs, i, proj, ball_center, vel, max_vel, delta, upto) == (
            bounce_velocity(vel, max_vel, ball_center.y, obj_center(objs[o]).y),
            v2_neg(delta),
        ),
    decreases upto,
{
    if o == upto - 1 {
        lemma_no_collision_identity(objs, i, proj, ball_center, vel, max_vel, delta, upto - 1);
    } else {
        lemma_single_collision_fold(objs, i, o, proj, ball_center, vel, max_vel, delta, upto - 1);
    }
}

/// A paddle bounce, exactly: on a tick where the ball is within the
/// horizontal bounds, outside the wall band, and its projected collider
/// crosses exactly one other object, the new horizontal velocity is the
/// old one amplified by 23/20, capped at the limit and reversed; the new
/// vertical velocity is the strike's deflection; and the ball recoils by
/// exactly this tick's displacement.
pub proof fn lemma_paddle_bounce_exact(
    objs: Seq<ObjectV>,
    i: int,
    o: int,
    control: int,
    acc: int,
    dt: int,
    w: int,
    h: int,
)
    requires
        0 <= i < objs.len(),
        0 <= o < objs.len(),
        o != i,
        objs[i].obj_type == ObjectType::Ball,
        !ball_out_of_bounds(objs[i], w),
        objs[i].size.y / 2 <= obj_center(objs[i]).y <= h - objs[i].size.y / 2,
        colliding(projected_collider(objs[i], dt), obj_collider(objs[o])),
        forall|j: int|
            0 <= j < objs.len() && j != i && j != o ==> !colliding(
                projected_collider(objs[i], dt),
                obj_collider(#[trigger] objs[j]),
            ),
    ensures
        tick(objs, control, acc, dt, w, h)[i].velocity == bounce_velocity(
            objs[i].velocity,
            objs[i].max_velocity,
            obj_center(objs[i]).y,
            obj_center(objs[o]).y,
        ),
        tick(objs, control, acc, dt, w, h)[i].velocity.x == -clamp(
            div_trunc(objs[i].velocity.x * 23, 20),
            -objs[i].max_velocity.x,
            objs[i].max_velocity.x,
        ),
        tick(objs, control, acc, dt, w, h)[i].position == v2_sub(
            objs[i].position,
            tick_delta(objs[i], dt),
        ),
{
    lemma_single_collision_fold(
        objs,
        i,
        o,
        projected_collider(objs[i], dt),
        obj_center(objs[i]),
        objs[i].velocity,
        objs[i].max_velocity,
        tick_delta(objs[i], dt),
        objs.len() as int,
    );
}

/// The AI's prediction for a flat ball track: a ball beyond the paddle's
/// center and heading toward it is judged incoming, with no vertical
/// velocity its predicted interception height is its current height, and
/// the paddle's steering step is the clamped interpolation toward that
/// height plus its own velocity's displacement.
pub proof fn lemma_ai_tracks_flat_ball(
    o: ObjectV,
    ball_pos: Vec2V,
    ball_vel: Vec2V,
    acc: int,
    dt: int,
    h: int,
)
    requires
        obj_center(o).x < ball_pos.x,
        ball_vel.x < 0,
        ball_vel.y == 0,
        0 <= ball_pos.y <= h,
        0 < h / 2 - o.size.y / 2 < h,
    ensures
        ai_is_incoming(obj_center(o).x, ball_pos.x, ball_vel.x),
        ai_target_y(obj_center(o).x, o.size.y, ball_pos, ball_vel, h) == ball_pos.y,
        step_paddle(o, Option::Some((ball_pos, ball_vel)), acc, dt, h).position.y == clamp(
            o.position.y + div_trunc(
                (ball_pos.y - o.size.y / 2 - o.position.y) * (dt * 15 * acc),
                10_000_000,
            ),
            0,
            h - o.size.y,
        ) + o.velocity.y * dt,
{
}

/// Pause idempotence: an update of a paused state is that state, so any
/// number of updates while paused change nothing.
pub proof fn lemma_update_paused(s: GameStateV, dt: int, w: int, h: int)
    requires
        s.paused,
    ensures
        update_state(s, dt, w, h) == s,
{
}

/// Resetting an object twice for the same field is the same as resetting
/// it once: the reset only reads what it does not write.
pub proof fn lemma_reset_idempotent(o: ObjectV, w: int, h: int)
    ensures
        reset_object(reset_object(o, w, h), w, h) == reset_object(o, w, h),
{
}

/// Reset idempotence for the whole collection: resetting every object a
/// second time for the same field dimensions yields the same states.
pub proof fn lemma_reset_objects_idempotent(objs: Seq<ObjectV>, w: int, h: int)
    ensures
        objs.map_values(|o: ObjectV| reset_object(o, w, h)).map_values(
            |o: ObjectV| reset_object(o, w, h),
        ) == objs.map_values(|o: ObjectV| reset_object(o, w, h)),
{
    let f = |o: ObjectV| reset_object(o, w, h);
    let once = objs.map_values(f);
    assert forall|i: int| 0 <= i < once.len() implies once.map_values(f)[i] == once[i] by {
        lemma_reset_idempotent(objs[i], w, h);
    }
    assert(once.map_values(f) =~= once);
}

/// Symmetry: a reset stands the left paddle a twentieth of the field
/// width from the left edge, and the right paddle's box the same
/// nineteen-twentieths mark minus its width — the mirrored inset.
pub proof fn lemma_reset_paddle_symmetry(l: ObjectV, r: ObjectV, w: int, h: int)
    requires
        l.obj_type == ObjectType::PaddleLeft,
        r.obj_type == ObjectType::PaddleRight,
    ensures
        reset_object(l, w, h).position.x == w / 20,
        reset_object(r, w, h).position.x == (w * 19) / 20 - r.size.x,
{
}

/// Out-of-bounds reset: a ball standing past the right field edge is
/// reset by one tick, whatever its velocity, and its collider comes out
/// centered on the field.
pub proof fn lemma_out_of_bounds_reset(
    objs: Seq<ObjectV>,
    i: int,
    control: int,
    acc: int,
    dt: int,
    w: int,
    h: int,
)
    requires
        0 <= i < objs.len(),
        objs[i].obj_type == ObjectType::Ball,
        objs[i].position.x == w + 1,
        0 <= objs[i].size.x,
        0 <= objs[i].size.y,
    ensures
        obj_collider(tick(objs, control, acc, dt, w, h)[i]).center == v2(w / 2, h / 2),
{
}

/// The human-controlled paddle gets no autonomous behavior: a tick
/// leaves its kind, size and velocities alone and moves it only by its
/// own velocity, whatever the AI would have done.
pub proof fn lemma_controlled_paddle_passive(
    objs: Seq<ObjectV>,
    control: int,
    acc: int,
    dt: int,
    w: int,
    h: int,
)
    requires
        0 <= control < objs.len(),
        objs[control].obj_type != ObjectType::Ball,
    ensures
        tick(objs, control, acc, dt, w, h)[control] == (ObjectV {
            position: v2_add(objs[control].position, tick_delta(objs[control], dt)),
            ..objs[control]
        }),
{
}

} // verus!
