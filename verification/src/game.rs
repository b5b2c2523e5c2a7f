//! The simulation engine: the game state and its per-tick update.
//!
//! Each tick first snapshots every object's collider and the ball's
//! position and velocity, then steps every object against that snapshot
//! alone, so no object's behavior can observe another's mid-tick
//! mutation.

use vstd::prelude::*;

use crate::math::{clamp_i64, div_nn, div_trunc_128, mul_wide, mul_wide_128, narrow};
use crate::model::{
    ball_collisions, ball_track, obj_collider, reset_object, step_ball, step_object,
    step_paddle, tick, tick_delta, traj_of, update_pre, update_state, wf_object, GameStateV,
    ObjectV, Vec2V,
};
use crate::structs::{Object, ObjectCollider, ObjectType, Vec2};
use crate::{MAX_ACCURACY, MAX_COORD, MAX_DT, UNIT};

verus! {

/// The ball-track snapshot, seen in the model.
pub open spec fn track_view(t: Option<(Vec2, Vec2)>) -> Option<(Vec2V, Vec2V)> {
    match t {
        Option::None => Option::None,
        Option::Some((p, v)) => Option::Some((p@, v@)),
    }
}

/// The engine: the object collection, which object the human controls,
/// the AI difficulty (in thousandths), and the pause flag.  It is the
/// sole owner of the objects; the host mutates them only through it.
pub struct GameState {
    pub objects: Vec<Object>,
    pub control_id: usize,
    pub ai_accuracy: i64,
    pub paused: bool,
}

impl View for GameState {
    type V = GameStateV;

    open spec fn view(&self) -> GameStateV {
        GameStateV {
            objects: self.objects@.map_values(|o: Object| o@),
            control_id: self.control_id as int,
            ai_accuracy: self.ai_accuracy as int,
            paused: self.paused,
        }
    }
}

impl GameState {
    /// A paused engine with no objects, the control index at zero, and
    /// three-quarters AI accuracy.
    pub fn new() -> (r: GameState)
        ensures
            r@ == (GameStateV {
                objects: Seq::empty(),
                control_id: 0,
                ai_accuracy: 750,
                paused: true,
            }),
    {
        let r = GameState { objects: Vec::new(), control_id: 0, ai_accuracy: 750, paused: true };
        proof {
            assert(r@.objects =~= Seq::<ObjectV>::empty());
        }
        r
    }

    /// Advance the simulation by `delta_time` milliseconds on a field of
    /// the given dimensions; a no-op while paused.
    #[verifier::loop_isolation(false)]
    pub fn update(&mut self, delta_time: i64, width: i64, height: i64)
        requires
            update_pre(old(self)@, delta_time as int, width as int, height as int),
        ensures
            final(self)@ == update_state(
                old(self)@,
                delta_time as int,
                width as int,
                height as int,
            ),
    {
        if self.paused {
            return ;
        }
        let ghost s0: GameStateV = self@;
        let n = self.objects.len();

        // Snapshot phase: every collider, and the ball's position and
        // velocity, as they stand before any mutation.
        let mut colliders: Vec<ObjectCollider> = Vec::new();
        let mut track: Option<(Vec2, Vec2)> = None;
        for idx in 0..n
            invariant
                *self == *old(self),
                colliders@.len() == idx,
                forall|j: int|
                    0 <= j < idx ==> (#[trigger] colliders@[j])@ == obj_collider(s0.objects[j]),
                track_view(track) == ball_track(s0.objects.take(idx as int)),
        {
            let obj = &self.objects[idx];
            proof {
                assert(wf_object(s0.objects[idx as int]));
            }
            if obj.obj_type == ObjectType::Ball {
                track = Some((obj.position, obj.velocity));
            }
            colliders.push(obj.get_collider());
            proof {
                lemma_ball_track_step(s0.objects, idx as int);
            }
        }
        proof {
            assert(s0.objects.take(n as int) =~= s0.objects);
        }

        // Behaviour phase: step every object against the snapshot.
        let mut new_objects: Vec<Object> = Vec::new();
        for i in 0..n
            invariant
                *self == *old(self),
                colliders@.len() == n,
                forall|j: int|
                    0 <= j < n ==> (#[trigger] colliders@[j])@ == obj_collider(s0.objects[j]),
                track_view(track) == ball_track(s0.objects),
                new_objects@.len() == i,
                forall|j: int|
                    0 <= j < i ==> (#[trigger] new_objects@[j])@ == step_object(
                        s0.objects,
                        j,
                        s0.control_id,
                        s0.ai_accuracy,
                        delta_time as int,
                        width as int,
                        height as int,
                    ),
        {
            let obj = self.objects[i];
            proof {
                lemma_ball_track_wf(s0.objects);
            }
            let stepped = step_one(
                obj,
                i,
                &colliders,
                track,
                Ghost(s0.objects),
                self.control_id,
                self.ai_accuracy,
                delta_time,
                width,
                height,
            );
            new_objects.push(stepped);
        }
        self.objects = new_objects;
        proof {
            assert(self@.objects =~= tick(
                s0.objects,
                s0.control_id,
                s0.ai_accuracy,
                delta_time as int,
                width as int,
                height as int,
            ));
        }
    }

    /// Return every object to its canonical state; called on startup and
    /// whenever the field dimensions change.
    #[verifier::loop_isolation(false)]
    pub fn reset_objects(&mut self, width: i64, height: i64)
        requires
            0 <= width <= MAX_COORD,
            0 <= height <= MAX_COORD,
            forall|i: int|
                0 <= i < old(self)@.objects.len() ==> {
                    &&& 0 <= (#[trigger] old(self)@.objects[i]).size.x <= MAX_COORD
                    &&& 0 <= old(self)@.objects[i].size.y <= MAX_COORD
                },
        ensures
            final(self)@ == (GameStateV {
                objects: old(self)@.objects.map_values(
                    |o: ObjectV| reset_object(o, width as int, height as int),
                ),
                ..old(self)@
            }),
    {
        let ghost s0: GameStateV = self@;
        let n = self.objects.len();
        for i in 0..n
            invariant
                self.objects@.len() == n,
                self.control_id == old(self).control_id,
                self.ai_accuracy == old(self).ai_accuracy,
                self.paused == old(self).paused,
                forall|j: int|
                    i <= j < n ==> #[trigger] self.objects@[j] == old(self).objects@[j],
                forall|j: int|
                    0 <= j < i ==> (#[trigger] self.objects@[j])@ == reset_object(
                        s0.objects[j],
                        width as int,
                        height as int,
                    ),
        {
            let obj = &mut self.objects[i];
            obj.reset(width, height);
        }
        proof {
            assert(self@.objects =~= s0.objects.map_values(
                |o: ObjectV| reset_object(o, width as int, height as int),
            ));
        }
    }

    /// The human-controlled object, for the host to apply input to.
    pub fn get_control(&mut self) -> (r: &mut Object)
        requires
            old(self).control_id < old(self).objects.len(),
        ensures
            *r == old(self).objects@[old(self).control_id as int],
            final(self).objects@ == old(self).objects@.update(
                old(self).control_id as int,
                *final(r),
            ),
            final(self).control_id == old(self).control_id,
            final(self).ai_accuracy == old(self).ai_accuracy,
            final(self).paused == old(self).paused,
    {
        let id = self.control_id;
        &mut self.objects[id]
    }

    /// Pause or resume the simulation; nothing else changes.  (Grabbing
    /// or releasing the pointer is the host's business.)
    pub fn pause(&mut self, flag: bool)
        ensures
            final(self)@ == (GameStateV { paused: flag, ..old(self)@ }),
    {
        self.paused = flag;
    }
}

/// Extending a prefix by one object extends its ball track: the new
/// object's snapshot if it is the ball, the prefix's track otherwise.
proof fn lemma_ball_track_step(objs: Seq<ObjectV>, k: int)
    requires
        0 <= k < objs.len(),
    ensures
        ball_track(objs.take(k + 1)) == (if objs[k].obj_type == ObjectType::Ball {
            Option::Some((objs[k].position, objs[k].velocity))
        } else {
            ball_track(objs.take(k))
        }),
{
    let t = objs.take(k + 1);
    assert(t.last() == objs[k]);
    assert(t.drop_last() =~= objs.take(k));
}

/// A ball track drawn from bounded objects is bounded.
proof fn lemma_ball_track_wf(objs: Seq<ObjectV>)
    requires
        forall|j: int| 0 <= j < objs.len() ==> wf_object(#[trigger] objs[j]),
    ensures
        ball_track(objs) matches Option::Some(t) ==> {
            &&& -MAX_COORD <= t.0.x <= MAX_COORD
            &&& -MAX_COORD <= t.0.y <= MAX_COORD
            &&& -MAX_COORD <= t.1.x <= MAX_COORD
            &&& -MAX_COORD <= t.1.y <= MAX_COORD
        },
    decreases objs.len(),
{
    if objs.len() == 0 {
    } else if objs.last().obj_type == ObjectType::Ball {
        assert(wf_object(objs[objs.len() - 1]));
    } else {
        lemma_ball_track_wf(objs.drop_last());
    }
}

/// The displacement `velocity * delta_time` of one object for this tick.
fn delta_exec(obj: Object, dt: i64) -> (r: Vec2)
    requires
        -MAX_COORD <= obj.velocity.x <= MAX_COORD,
        -MAX_COORD <= obj.velocity.y <= MAX_COORD,
        0 <= dt <= MAX_DT,
    ensures
        r@ == tick_delta(obj@, dt as int),
        -100_000_000_000_000 <= r.x <= 100_000_000_000_000,
        -100_000_000_000_000 <= r.y <= 100_000_000_000_000,
{
    proof {
        assert(-100_000_000_000_000 <= obj.velocity.x as int * dt as int <= 100_000_000_000_000
            && -100_000_000_000_000 <= obj.velocity.y as int * dt as int <= 100_000_000_000_000)
            by (nonlinear_arith)
            requires
                -100_000_000 <= obj.velocity.x as int <= 100_000_000,
                -100_000_000 <= obj.velocity.y as int <= 100_000_000,
                0 <= dt as int <= 1_000_000,
        ;
    }
    Vec2::new(narrow(mul_wide(obj.velocity.x, dt)), narrow(mul_wide(obj.velocity.y, dt)))
}

/// The vertical deflection of a strike, as the model's `traj_of`.
fn traj_exec(angle: i64, ball_cy: i64) -> (r: i64)
    requires
        -1_000_000_000 <= angle <= 1_000_000_000,
        -1_000_000_000 <= ball_cy <= 1_000_000_000,
    ensures
        r == traj_of(angle as int, ball_cy as int),
        0 <= r <= UNIT,
{
    if ball_cy > 0 {
        let a = if angle >= 0 {
            angle
        } else {
            -angle
        };
        clamp_i64(div_nn(2 * a * UNIT, ball_cy), 0, UNIT)
    } else if ball_cy < 0 {
        0
    } else if angle == 0 {
        0
    } else {
        UNIT
    }
}

/// One tick of the ball: reset when out of bounds, else bounce off the
/// top or bottom edge, else take one bounce per other object whose
/// pre-tick collider the projected collider crosses, then move.
#[verifier::loop_isolation(false)]
fn step_ball_exec(
    obj: Object,
    i: usize,
    colliders: &Vec<ObjectCollider>,
    Ghost(objs): Ghost<Seq<ObjectV>>,
    dt: i64,
    width: i64,
    height: i64,
) -> (r: Object)
    requires
        i < objs.len(),
        obj@ == objs[i as int],
        colliders@.len() == objs.len(),
        forall|j: int| 0 <= j < objs.len() ==> (#[trigger] colliders@[j])@ == obj_collider(objs[j]),
        forall|j: int| 0 <= j < objs.len() ==> wf_object(#[trigger] objs[j]),
        0 <= dt <= MAX_DT,
        0 < width <= MAX_COORD,
        0 < height <= MAX_COORD,
    ensures
        r@ == step_ball(objs, i as int, dt as int, width as int, height as int),
{
    let delta = delta_exec(obj, dt);
    let center = obj.get_center();
    if center.x < 0 || center.x > width {
        let mut r = obj;
        r.reset(width, height);
        r
    } else if center.y < div_nn(obj.size.y, 2) || center.y > height - div_nn(obj.size.y, 2) {
        // A vertical-wall bounce: flip the vertical velocity and recoil
        // this tick's vertical displacement, amplified by 12/10.
        let bounce_dy = -narrow(div_trunc_128(mul_wide(delta.y, 12), 10));
        let mut r = obj;
        r.velocity = Vec2::new(r.velocity.x, -r.velocity.y);
        r.position = r.position.add(Vec2::new(delta.x, bounce_dy));
        r
    } else {
        let min = obj.position.add(delta);
        let max = obj.position.add(obj.size).add(delta);
        let proj = ObjectCollider { min, max, center };
        let mut vel = obj.velocity;
        let mut cur_delta = delta;
        let n = colliders.len();
        for o in 0..n
            invariant
                (vel@, cur_delta@) == ball_collisions(
                    objs,
                    i as int,
                    proj@,
                    center@,
                    obj@.velocity,
                    obj@.max_velocity,
                    tick_delta(obj@, dt as int),
                    o as int,
                ),
                -MAX_COORD <= vel.x <= MAX_COORD,
                -MAX_COORD <= vel.y <= MAX_COORD,
                -100_000_000_000_000 <= cur_delta.x <= 100_000_000_000_000,
                -100_000_000_000_000 <= cur_delta.y <= 100_000_000_000_000,
        {
            if o != i {
                let other = &colliders[o];
                if proj.is_colliding(other) {
                    // Reverse and amplify the horizontal velocity, capped
                    // at the speed limit; rebuild the vertical velocity
                    // from where the strike landed; recoil this tick's
                    // displacement.
                    let clamped = clamp_i64(
                        narrow(div_trunc_128(mul_wide(vel.x, 23), 20)),
                        -obj.max_velocity.x,
                        obj.max_velocity.x,
                    );
                    let angle = center.y - other.center.y;
                    let traj = traj_exec(angle, center.y);
                    let new_vy = if angle >= 0 {
                        traj
                    } else {
                        -traj
                    };
                    vel = Vec2::new(-clamped, new_vy);
                    cur_delta = Vec2::new(-cur_delta.x, -cur_delta.y);
                }
            }
        }
        let mut r = obj;
        r.velocity = vel;
        r.position = r.position.add(cur_delta);
        r
    }
}

/// One tick of the AI-driven paddle: steer toward the predicted
/// interception height (or the field's center), then move by this tick's
/// displacement.  The steering reads which side of the ball the paddle
/// stands on, so it serves either paddle.
fn step_paddle_exec(
    obj: Object,
    track: Option<(Vec2, Vec2)>,
    ai_accuracy: i64,
    dt: i64,
    height: i64,
) -> (r: Object)
    requires
        wf_object(obj@),
        obj@.size.y <= height,
        track matches Option::Some(t) ==> {
            &&& -MAX_COORD <= t.0.x <= MAX_COORD
            &&& -MAX_COORD <= t.0.y <= MAX_COORD
            &&& -MAX_COORD <= t.1.x <= MAX_COORD
            &&& -MAX_COORD <= t.1.y <= MAX_COORD
        },
        0 <= dt <= MAX_DT,
        0 < height <= MAX_COORD,
        0 <= ai_accuracy <= MAX_ACCURACY,
    ensures
        r@ == step_paddle(obj@, track_view(track), ai_accuracy as int, dt as int, height as int),
{
    let delta = delta_exec(obj, dt);
    match track {
        None => {
            let mut r = obj;
            r.position = r.position.add(delta);
            r
        },
        Some((ball_pos, ball_vel)) => {
            let center = obj.get_center();
            let half = div_nn(obj.size.y, 2);
            let center_tar = div_nn(height, 2) - half;
            let incoming = if center.x < ball_pos.x {
                ball_vel.x < 0
            } else {
                ball_vel.x > 0
            };
            let y_tar: i64 = if incoming && center_tar > 0 && center_tar < height {
                // The ball is approaching: extrapolate where it crosses
                // the paddle's plane; off-field landings are redirected
                // to the field's quarters.
                let x_diff_abs = if center.x >= ball_pos.x {
                    center.x - ball_pos.x
                } else {
                    ball_pos.x - center.x
                };
                let vx_abs = if ball_vel.x >= 0 {
                    ball_vel.x
                } else {
                    -ball_vel.x
                };
                let time = div_nn(x_diff_abs, vx_abs);
                proof {
                    assert(-25_000_000_000_000_000 <= ball_vel.y as int * time as int
                        <= 25_000_000_000_000_000)
                        by (nonlinear_arith)
                        requires
                            -100_000_000 <= ball_vel.y as int <= 100_000_000,
                            0 <= time as int <= 250_000_000,
                    ;
                }
                let y_move = narrow(mul_wide(ball_vel.y, time));
                let y_pos = ball_pos.y + y_move;
                if y_pos < 0 {
                    div_nn(height, 4)
                } else if y_pos > height {
                    div_nn(height * 3, 4)
                } else {
                    y_pos
                }
            } else {
                center_tar
            };
            // Interpolate toward the target at a rate scaled by the
            // elapsed time and the AI accuracy, staying on the field.
            let diff = y_tar - half - obj.position.y;
            let factor = mul_wide_128(mul_wide(dt, 15), ai_accuracy as i128);
            proof {
                assert(0 <= (dt as int * 15) * (ai_accuracy as int) <= 15_000_000_000)
                    by (nonlinear_arith)
                    requires
                        0 <= dt as int <= 1_000_000,
                        0 <= ai_accuracy as int <= 1000,
                ;
                assert(-4_500_000_000_000_000_000 <= (diff as int) * ((dt as int * 15) * (
                ai_accuracy as int)) <= 4_500_000_000_000_000_000)
                    by (nonlinear_arith)
                    requires
                        -300_000_000 <= diff as int <= 300_000_000,
                        0 <= (dt as int * 15) * (ai_accuracy as int) <= 15_000_000_000,
                ;
            }
            let movement = narrow(div_trunc_128(mul_wide_128(diff as i128, factor), 10_000_000));
            let y2 = clamp_i64(obj.position.y + movement, 0, height - obj.size.y);
            let mut r = obj;
            r.position = Vec2::new(r.position.x, y2).add(delta);
            r
        },
    }
}

/// One tick of one object, dispatched on its kind against the pre-tick
/// snapshot: ball physics for the ball, AI steering for the paddle the
/// human does not control, and a plain velocity move for the controlled
/// paddle.
fn step_one(
    obj: Object,
    i: usize,
    colliders: &Vec<ObjectCollider>,
    track: Option<(Vec2, Vec2)>,
    Ghost(objs): Ghost<Seq<ObjectV>>,
    control: usize,
    ai_accuracy: i64,
    dt: i64,
    width: i64,
    height: i64,
) -> (r: Object)
    requires
        i < objs.len(),
        obj@ == objs[i as int],
        colliders@.len() == objs.len(),
        forall|j: int| 0 <= j < objs.len() ==> (#[trigger] colliders@[j])@ == obj_collider(objs[j]),
        forall|j: int| 0 <= j < objs.len() ==> wf_object(#[trigger] objs[j]),
        track_view(track) == ball_track(objs),
        ball_track(objs) matches Option::Some(t) ==> {
            &&& -MAX_COORD <= t.0.x <= MAX_COORD
            &&& -MAX_COORD <= t.0.y <= MAX_COORD
            &&& -MAX_COORD <= t.1.x <= MAX_COORD
            &&& -MAX_COORD <= t.1.y <= MAX_COORD
        },
        0 <= dt <= MAX_DT,
        0 < width <= MAX_COORD,
        0 < height <= MAX_COORD,
        0 <= ai_accuracy <= MAX_ACCURACY,
        i != control && obj@.obj_type != ObjectType::Ball ==> obj@.size.y <= height,
    ensures
        r@ == step_object(
            objs,
            i as int,
            control as int,
            ai_accuracy as int,
            dt as int,
            width as int,
            height as int,
        ),
{
    match obj.obj_type {
        ObjectType::Ball => step_ball_exec(obj, i, colliders, Ghost(objs), dt, width, height),
        ObjectType::PaddleLeft | ObjectType::PaddleRight => {
            if i != control {
                step_paddle_exec(obj, track, ai_accuracy, dt, height)
            } else {
                let delta = delta_exec(obj, dt);
                let mut r = obj;
                r.position = r.position.add(delta);
                r
            }
        },
    }
}

} // verus!
