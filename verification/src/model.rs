//! The mathematical model of the simulation: ghost mirror types for the
//! executable structures, and the functions that say exactly what one
//! reset and one tick compute.
//!
//! Every coordinate is an integer number of milli-units ([`crate::UNIT`]
//! per screen unit).  Where the model divides, [`div_trunc`] rounds toward
//! zero, as the executable code does; divisions written `/` only ever see
//! nonnegative dividends, where flooring and truncation agree.
//!
//! Design choices that the model pins down (the engine applies them
//! consistently):
//! - collision detection is the edge-intersection policy: two colliders
//!   collide when a boundary segment of one properly crosses a boundary
//!   segment of the other;
//! - the ball's out-of-bounds test looks at its center's x-coordinate
//!   only; top and bottom edges bounce instead of resetting;
//! - a tick that resets an out-of-bounds ball is consumed by the reset:
//!   the ball does not additionally move by its old velocity;
//! - the AI drives whichever paddle the human does not control; the
//!   controlled paddle gets no autonomous behavior from a tick, only the
//!   displacement of its own velocity.

use vstd::math::abs;
use vstd::prelude::*;

use crate::structs::ObjectType;
use crate::{MAX_ACCURACY, MAX_COORD, MAX_DT, UNIT};

verus! {

/// A 2D vector over the mathematical integers.
pub struct Vec2V {
    pub x: int,
    pub y: int,
}

/// The model of one game object.
pub struct ObjectV {
    pub obj_type: ObjectType,
    pub position: Vec2V,
    pub size: Vec2V,
    pub velocity: Vec2V,
    pub max_velocity: Vec2V,
}

/// The model of a collider: an axis-aligned box and its center.
pub struct ColliderV {
    pub min: Vec2V,
    pub max: Vec2V,
    pub center: Vec2V,
}

/// The model of the whole engine state.
pub struct GameStateV {
    pub objects: Seq<ObjectV>,
    pub control_id: int,
    pub ai_accuracy: int,
    pub paused: bool,
}

pub open spec fn v2(x: int, y: int) -> Vec2V {
    Vec2V { x, y }
}

pub open spec fn v2_add(a: Vec2V, b: Vec2V) -> Vec2V {
    v2(a.x + b.x, a.y + b.y)
}

pub open spec fn v2_sub(a: Vec2V, b: Vec2V) -> Vec2V {
    v2(a.x - b.x, a.y - b.y)
}

pub open spec fn v2_neg(a: Vec2V) -> Vec2V {
    v2(-a.x, -a.y)
}

/// Division truncating toward zero, the rounding of Rust's `/`.
pub open spec fn div_trunc(a: int, b: int) -> int
    recommends
        0 < b,
{
    if a >= 0 {
        a / b
    } else {
        -((-a) / b)
    }
}

/// The value `v` pulled into the interval `[lo, hi]`.
pub open spec fn clamp(v: int, lo: int, hi: int) -> int
    recommends
        lo <= hi,
{
    if v < lo {
        lo
    } else if v > hi {
        hi
    } else {
        v
    }
}

/// An object's center: its top-left position plus half its size.
pub open spec fn obj_center(o: ObjectV) -> Vec2V {
    v2(o.position.x + o.size.x / 2, o.position.y + o.size.y / 2)
}

/// The collider derived from an object's current position and size.
pub open spec fn obj_collider(o: ObjectV) -> ColliderV {
    ColliderV { min: o.position, max: v2_add(o.position, o.size), center: obj_center(o) }
}

/// Counter-clockwise orientation test for the points `a`, `b`, `c`.
pub open spec fn ccw(a: Vec2V, b: Vec2V, c: Vec2V) -> bool {
    (c.y - a.y) * (b.x - a.x) > (b.y - a.y) * (c.x - a.x)
}

/// Proper-crossing test for the segments `(a, b)` and `(c, d)`.
pub open spec fn segments_intersect(a: Vec2V, b: Vec2V, c: Vec2V, d: Vec2V) -> bool {
    ccw(a, c, d) != ccw(b, c, d) && ccw(a, b, c) != ccw(a, b, d)
}

/// The four boundary segments of a collider, in the order the executable
/// hitbox lists them.
pub open spec fn hitbox(c: ColliderV) -> Seq<(Vec2V, Vec2V)> {
    seq![
        (v2(c.min.x, c.min.y), v2(c.max.x, c.min.y)),
        (v2(c.min.x, c.min.y), v2(c.min.x, c.max.y)),
        (v2(c.min.x, c.max.y), v2(c.max.x, c.max.y)),
        (v2(c.max.x, c.max.y), v2(c.max.x, c.min.y)),
    ]
}

/// Whether boundary segment `i` of `a` properly crosses boundary segment
/// `j` of `b`.
pub open spec fn seg_pair_crosses(a: ColliderV, b: ColliderV, i: int, j: int) -> bool {
    segments_intersect(hitbox(a)[i].0, hitbox(a)[i].1, hitbox(b)[j].0, hitbox(b)[j].1)
}

/// Edge-intersection collision: some boundary segment of `a` properly
/// crosses some boundary segment of `b`.
pub open spec fn colliding(a: ColliderV, b: ColliderV) -> bool {
    exists|i: int, j: int| 0 <= i < 4 && 0 <= j < 4 && #[trigger] seg_pair_crosses(a, b, i, j)
}

/// The canonical state an object returns to when the field dimensions
/// become known or change.
///
/// The ball gets a small rightward nudge scaled to the field width, speed
/// caps scaled to the field, and sits centered.  A paddle's height becomes
/// a quarter of the field height; the left paddle stands a twentieth of
/// the width from the left edge, the right paddle the same inset from the
/// right edge; both are centered vertically.
pub open spec fn reset_object(o: ObjectV, w: int, h: int) -> ObjectV {
    match o.obj_type {
        ObjectType::Ball => ObjectV {
            velocity: v2(w / 3200, 0),
            max_velocity: v2(w / 400, h / 400),
            position: v2(w / 2 - o.size.x / 2, h / 2 - o.size.y / 2),
            ..o
        },
        ObjectType::PaddleLeft => ObjectV {
            size: v2(o.size.x, h / 4),
            position: v2(w / 20, h / 2 - (h / 4) / 2),
            ..o
        },
        ObjectType::PaddleRight => ObjectV {
            size: v2(o.size.x, h / 4),
            position: v2((w * 19) / 20 - o.size.x, h / 2 - (h / 4) / 2),
            ..o
        },
    }
}

/// The ball's reset trigger: its center has crossed the left or right
/// field edge.  Only the x-axis counts; top and bottom edges bounce.
pub open spec fn ball_out_of_bounds(o: ObjectV, w: int) -> bool {
    obj_center(o).x < 0 || obj_center(o).x > w
}

/// The tentative displacement of an object over a tick of `dt`
/// milliseconds.
pub open spec fn tick_delta(o: ObjectV, dt: int) -> Vec2V {
    v2(o.velocity.x * dt, o.velocity.y * dt)
}

/// The vertical deflection a strike gives the ball, as a velocity in
/// `[0, UNIT]`: twice the offset of the strike from the struck object's
/// center, normalized by the ball center's height.  A nonpositive height
/// cannot normalize; the deflection is then full for a nonzero offset and
/// nothing for none, matching the clamp's limits.
pub open spec fn traj_of(angle: int, ball_cy: int) -> int {
    if ball_cy > 0 {
        clamp((2 * abs(angle) * UNIT) / ball_cy, 0, UNIT as int)
    } else if ball_cy < 0 {
        0
    } else if angle == 0 {
        0
    } else {
        UNIT as int
    }
}

/// The ball's velocity after striking an object: the horizontal component
/// amplified by 23/20, capped at the speed limit and reversed; the
/// vertical component recomputed from where the strike landed, upward for
/// the upper half and downward for the lower.
pub open spec fn bounce_velocity(vel: Vec2V, max_vel: Vec2V, ball_cy: int, other_cy: int) -> Vec2V {
    let angle = ball_cy - other_cy;
    let traj = traj_of(angle, ball_cy);
    v2(
        -clamp(div_trunc(vel.x * 23, 20), -max_vel.x, max_vel.x),
        if angle >= 0 {
            traj
        } else {
            -traj
        },
    )
}

/// The ball's velocity and displacement after testing its projected
/// collider against the pre-tick colliders of the objects before index
/// `upto`, applying one bounce per collision and recoiling the
/// displacement each time.
pub open spec fn ball_collisions(
    objs: Seq<ObjectV>,
    i: int,
    proj: ColliderV,
    ball_center: Vec2V,
    vel: Vec2V,
    max_vel: Vec2V,
    delta: Vec2V,
    upto: int,
) -> (Vec2V, Vec2V)
    decreases upto,
{
    if upto <= 0 {
        (vel, delta)
    } else {
        let (v0, d0) = ball_collisions(objs, i, proj, ball_center, vel, max_vel, delta, upto - 1);
        let o = upto - 1;
        if o != i && colliding(proj, obj_collider(objs[o])) {
            (bounce_velocity(v0, max_vel, ball_center.y, obj_center(objs[o]).y), v2_neg(d0))
        } else {
            (v0, d0)
        }
    }
}

/// The ball's collider projected forward by this tick's displacement, so
/// collision response anticipates the move instead of lagging a tick; the
/// cached center stays the pre-tick one.
pub open spec fn projected_collider(o: ObjectV, dt: int) -> ColliderV {
    let delta = tick_delta(o, dt);
    ColliderV {
        min: v2_add(o.position, delta),
        max: v2_add(v2_add(o.position, o.size), delta),
        center: obj_center(o),
    }
}

/// One tick of the ball at index `i`: reset if out of bounds (the reset
/// consumes the tick), else bounce off the top or bottom edge, else test
/// the collider projected by this tick's displacement against every other
/// object and move.
pub open spec fn step_ball(objs: Seq<ObjectV>, i: int, dt: int, w: int, h: int) -> ObjectV
    recommends
        0 <= i < objs.len(),
{
    let o = objs[i];
    let delta = tick_delta(o, dt);
    let center = obj_center(o);
    if ball_out_of_bounds(o, w) {
        reset_object(o, w, h)
    } else if center.y < o.size.y / 2 || center.y > h - o.size.y / 2 {
        ObjectV {
            velocity: v2(o.velocity.x, -o.velocity.y),
            position: v2_add(o.position, v2(delta.x, -div_trunc(delta.y * 12, 10))),
            ..o
        }
    } else {
        let (vel2, delta2) = ball_collisions(
            objs,
            i,
            projected_collider(o, dt),
            center,
            o.velocity,
            o.max_velocity,
            delta,
            objs.len() as int,
        );
        ObjectV { velocity: vel2, position: v2_add(o.position, delta2), ..o }
    }
}

/// Whether the ball is moving toward a paddle whose center sits at
/// `paddle_cx`.  A ball with no horizontal velocity approaches nothing,
/// which also guards the interception quotient below.
pub open spec fn ai_is_incoming(paddle_cx: int, ball_x: int, ball_vx: int) -> bool {
    if paddle_cx < ball_x {
        ball_vx < 0
    } else {
        ball_vx > 0
    }
}

/// The height at which an incoming ball reaches the paddle's plane:
/// linear extrapolation over the time to cross the horizontal gap,
/// redirected to the field's quarters when it lands off the field.
pub open spec fn ai_intercept_y(paddle_cx: int, ball_pos: Vec2V, ball_vel: Vec2V, h: int) -> int
    recommends
        ball_vel.x != 0,
{
    let time = abs(paddle_cx - ball_pos.x) / abs(ball_vel.x);
    let y_pos = ball_pos.y + ball_vel.y * time;
    if y_pos < 0 {
        h / 4
    } else if y_pos > h {
        (h * 3) / 4
    } else {
        y_pos
    }
}

/// The height the AI paddle steers toward: the interception height when
/// the ball is incoming, the field's vertical center otherwise.
pub open spec fn ai_target_y(
    paddle_cx: int,
    paddle_size_y: int,
    ball_pos: Vec2V,
    ball_vel: Vec2V,
    h: int,
) -> int {
    let center_tar = h / 2 - paddle_size_y / 2;
    if ai_is_incoming(paddle_cx, ball_pos.x, ball_vel.x) && center_tar > 0 && center_tar < h {
        ai_intercept_y(paddle_cx, ball_pos, ball_vel, h)
    } else {
        center_tar
    }
}

/// The paddle's vertical position after one interpolation step toward the
/// target: it moves by `dt * 0.0015 * accuracy` of the remaining gap
/// (accuracy in thousandths, hence the 10^7 divisor) and stays on the
/// field.
pub open spec fn ai_interp_y(pos_y: int, size_y: int, y_tar: int, acc: int, dt: int, h: int) -> int {
    let diff = y_tar - size_y / 2 - pos_y;
    let movement = div_trunc(diff * (dt * 15 * acc), 10_000_000);
    clamp(pos_y + movement, 0, h - size_y)
}

/// The ball the AI watches this tick: the position and velocity snapshot
/// of the last object tagged as the ball, if any.
pub open spec fn ball_track(objs: Seq<ObjectV>) -> Option<(Vec2V, Vec2V)>
    decreases objs.len(),
{
    if objs.len() == 0 {
        Option::None
    } else if objs.last().obj_type == ObjectType::Ball {
        Option::Some((objs.last().position, objs.last().velocity))
    } else {
        ball_track(objs.drop_last())
    }
}

/// One tick of an AI-driven paddle: steer toward the target computed
/// from the ball track, then move by the tick's displacement.  The
/// steering is side-agnostic — `ai_is_incoming` reads which side of the
/// ball the paddle stands on — so it drives either paddle.
pub open spec fn step_paddle(
    o: ObjectV,
    track: Option<(Vec2V, Vec2V)>,
    acc: int,
    dt: int,
    h: int,
) -> ObjectV {
    let delta = tick_delta(o, dt);
    match track {
        Option::None => ObjectV { position: v2_add(o.position, delta), ..o },
        Option::Some((ball_pos, ball_vel)) => {
            let y_tar = ai_target_y(obj_center(o).x, o.size.y, ball_pos, ball_vel, h);
            let y2 = ai_interp_y(o.position.y, o.size.y, y_tar, acc, dt, h);
            ObjectV { position: v2_add(v2(o.position.x, y2), delta), ..o }
        },
    }
}

/// One tick of the object at index `i`, dispatched on its kind.  The
/// paddle the human controls (index `control`) gets no autonomous
/// behavior — a tick moves it only by its own velocity; the AI drives
/// the other paddle.  Every object reads only the pre-tick snapshot, so
/// the outcome does not depend on the order the engine walks the
/// collection.
pub open spec fn step_object(
    objs: Seq<ObjectV>,
    i: int,
    control: int,
    acc: int,
    dt: int,
    w: int,
    h: int,
) -> ObjectV
    recommends
        0 <= i < objs.len(),
{
    let o = objs[i];
    match o.obj_type {
        ObjectType::Ball => step_ball(objs, i, dt, w, h),
        ObjectType::PaddleLeft | ObjectType::PaddleRight => if i != control {
            step_paddle(o, ball_track(objs), acc, dt, h)
        } else {
            ObjectV { position: v2_add(o.position, tick_delta(o, dt)), ..o }
        },
    }
}

/// One tick of the whole collection.
pub open spec fn tick(
    objs: Seq<ObjectV>,
    control: int,
    acc: int,
    dt: int,
    w: int,
    h: int,
) -> Seq<ObjectV> {
    Seq::new(objs.len(), |i: int| step_object(objs, i, control, acc, dt, w, h))
}

/// One call of the engine's update: a no-op while paused, one tick of the
/// objects otherwise; the pause flag, control index and accuracy never
/// change.
pub open spec fn update_state(s: GameStateV, dt: int, w: int, h: int) -> GameStateV {
    if s.paused {
        s
    } else {
        GameStateV { objects: tick(s.objects, s.control_id, s.ai_accuracy, dt, w, h), ..s }
    }
}

/// The coordinate bounds under which the executable engine is proved free
/// of overflow.
pub open spec fn wf_object(o: ObjectV) -> bool {
    &&& -MAX_COORD <= o.position.x <= MAX_COORD
    &&& -MAX_COORD <= o.position.y <= MAX_COORD
    &&& -MAX_COORD <= o.velocity.x <= MAX_COORD
    &&& -MAX_COORD <= o.velocity.y <= MAX_COORD
    &&& 0 <= o.size.x <= MAX_COORD
    &&& 0 <= o.size.y <= MAX_COORD
    &&& 0 <= o.max_velocity.x <= MAX_COORD
    &&& 0 <= o.max_velocity.y <= MAX_COORD
}

/// What one update call asks of its caller: a bounded nonnegative tick
/// time, positive bounded field dimensions, an accuracy within scale, and
/// objects whose coordinates stay within the arithmetic bounds.  An
/// AI-driven (non-controlled) paddle must not be taller than the field,
/// which the canonical reset guarantees.
pub open spec fn update_pre(s: GameStateV, dt: int, w: int, h: int) -> bool {
    &&& 0 <= dt <= MAX_DT
    &&& 0 < w <= MAX_COORD
    &&& 0 < h <= MAX_COORD
    &&& 0 <= s.ai_accuracy <= MAX_ACCURACY
    &&& forall|i: int| 0 <= i < s.objects.len() ==> wf_object(#[trigger] s.objects[i])
    &&& forall|i: int|
        0 <= i < s.objects.len() && i != s.control_id && (#[trigger] s.objects[i]).obj_type
            != ObjectType::Ball ==> s.objects[i].size.y <= h
}

} // verus!
