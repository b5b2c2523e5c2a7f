//! Tests for the engine: resets, ticks, bounces, pause, and the AI
//! paddle.  Coordinates are milli-units: 1000 per screen unit, so a
//! standard 800x600 field is 800_000 x 600_000.

use pong::game::GameState;
use pong::structs::{Object, ObjectType, Vec2};

const W: i64 = 800_000;
const H: i64 = 600_000;

fn ball() -> Object {
    Object::new(ObjectType::Ball).set_size(25_000, 25_000)
}

fn standard_state() -> GameState {
    let mut state = GameState::new();
    state.objects.push(ball());
    state.objects.push(Object::new(ObjectType::PaddleLeft).set_size(25_000, 100_000));
    state.objects.push(Object::new(ObjectType::PaddleRight).set_size(25_000, 100_000));
    state.control_id = 2;
    state
}

#[test]
fn new_state_defaults() {
    let state = GameState::new();
    assert!(state.objects.is_empty());
    assert_eq!(state.control_id, 0);
    assert_eq!(state.ai_accuracy, 750);
    assert!(state.paused);
}

#[test]
fn ball_reset_scenario() {
    // An 800x600 field gives the 25x25 ball a quarter-unit nudge, caps of
    // (2, 1.5) units per millisecond, and a centered box.
    let mut b = ball();
    b.reset(W, H);
    assert_eq!(b.velocity, Vec2::new(250, 0));
    assert_eq!(b.max_velocity, Vec2::new(2000, 1500));
    assert_eq!(b.position, Vec2::new(387_500, 287_500));
}

#[test]
fn paddle_reset_symmetry() {
    // Left paddle at 5% of the width, right paddle 5% in from the right
    // edge, both centered vertically at a quarter of the height tall.
    let mut left = Object::new(ObjectType::PaddleLeft).set_size(25_000, 100_000);
    let mut right = Object::new(ObjectType::PaddleRight).set_size(25_000, 100_000);
    left.reset(W, H);
    right.reset(W, H);
    assert_eq!(left.position, Vec2::new(40_000, 225_000));
    assert_eq!(left.size, Vec2::new(25_000, 150_000));
    assert_eq!(right.position, Vec2::new(735_000, 225_000));
    assert_eq!(right.size, Vec2::new(25_000, 150_000));

    // Another pair of field dimensions.
    left.reset(1_000_000, 400_000);
    right.reset(1_000_000, 400_000);
    assert_eq!(left.position.x, 50_000);
    assert_eq!(right.position.x, 950_000 - 25_000);
}

#[test]
fn reset_objects_is_idempotent() {
    let mut state = standard_state();
    state.reset_objects(W, H);
    let once: Vec<Object> = state.objects.clone();
    state.reset_objects(W, H);
    assert_eq!(state.objects, once);
}

#[test]
fn reset_objects_stays_in_bounds() {
    let mut state = standard_state();
    state.reset_objects(W, H);
    for obj in &state.objects {
        let c = obj.get_collider();
        assert!(c.min.x >= 0 && c.max.x <= W, "x out of field");
        assert!(c.min.y >= 0 && c.max.y <= H, "y out of field");
    }
}

#[test]
fn paused_update_changes_nothing() {
    let mut state = standard_state();
    state.reset_objects(W, H);
    state.pause(true);
    let before: Vec<Object> = state.objects.clone();
    for _ in 0..5 {
        state.update(16, W, H);
    }
    assert_eq!(state.objects, before);
    assert!(state.paused);
}

#[test]
fn pause_toggles_only_the_flag() {
    let mut state = standard_state();
    state.pause(false);
    assert!(!state.paused);
    assert_eq!(state.objects.len(), 3);
    state.pause(true);
    assert!(state.paused);
}

#[test]
fn get_control_hands_out_the_controlled_paddle() {
    let mut state = standard_state();
    state.reset_objects(W, H);
    {
        let control = state.get_control();
        assert_eq!(control.obj_type, ObjectType::PaddleRight);
        control.position.y += 1000;
    }
    assert_eq!(state.objects[2].position.y, 226_000);
}

#[test]
fn ball_moves_by_velocity_times_time() {
    let mut state = standard_state();
    state.reset_objects(W, H);
    state.pause(false);
    // After the reset the ball drifts right a quarter unit per
    // millisecond and meets nothing for a while.
    state.update(16, W, H);
    assert_eq!(state.objects[0].position, Vec2::new(387_500 + 250 * 16, 287_500));
    assert_eq!(state.objects[0].velocity, Vec2::new(250, 0));
}

#[test]
fn out_of_bounds_ball_is_reset() {
    // A ball past the right edge, with arbitrary velocity, is reset by
    // one tick: its collider comes out centered on the field.
    let mut state = standard_state();
    state.reset_objects(W, H);
    state.pause(false);
    state.objects[0].position = Vec2::new(W + 1, 100_000);
    state.objects[0].velocity = Vec2::new(12_345, -6_789);
    state.update(16, W, H);
    let b = &state.objects[0];
    assert_eq!(b.position, Vec2::new(387_500, 287_500));
    assert_eq!(b.velocity, Vec2::new(250, 0));
    let c = b.get_collider();
    assert_eq!(c.center, Vec2::new(W / 2, H / 2));
}

#[test]
fn ball_bounces_off_the_top_edge() {
    let mut state = standard_state();
    state.reset_objects(W, H);
    state.pause(false);
    // Ball sticking out of the top edge, heading up: the vertical
    // velocity flips and the tick's vertical displacement recoils,
    // amplified by 12/10.
    state.objects[0].position = Vec2::new(100_000, -5_000);
    state.objects[0].velocity = Vec2::new(0, -2_000);
    state.update(16, W, H);
    let b = &state.objects[0];
    assert_eq!(b.velocity, Vec2::new(0, 2_000));
    assert_eq!(b.position, Vec2::new(100_000, -5_000 + 38_400));
}

#[test]
fn paddle_bounce_amplifies_and_caps_velocity() {
    let mut state = GameState::new();
    let mut b = ball();
    b.position = Vec2::new(100_000, 100_000);
    b.velocity = Vec2::new(-1_000, 0);
    b.max_velocity = Vec2::new(2_000, 1_500);
    state.objects.push(b);
    let mut paddle = Object::new(ObjectType::PaddleRight).set_size(25_000, 140_000);
    paddle.position = Vec2::new(90_000, 80_000);
    state.objects.push(paddle);
    state.pause(false);

    state.update(16, W, H);
    let b = &state.objects[0];
    // Horizontal: -(-1000 * 23/20) = 1150, within the 2000 cap.
    // Vertical: the strike lands 37.5 units above the paddle's center;
    // 2 * 37500 * 1000 / 112500 = 666, downward-signed.
    assert_eq!(b.velocity, Vec2::new(1_150, -666));
    // The displacement recoiled: the ball backed off to the right.
    assert_eq!(b.position, Vec2::new(116_000, 100_000));
    // The velocity-clamp bound holds after the bounce.
    assert!(b.velocity.x.abs() <= b.max_velocity.x);
    assert!(b.velocity.y.abs() <= b.max_velocity.y);
}

#[test]
fn paddle_bounce_clamps_to_the_cap() {
    // A fast ball: -(-1900 * 23/20) would be 2185, but the cap is 2000.
    let mut state = GameState::new();
    let mut b = ball();
    b.position = Vec2::new(100_000, 100_000);
    b.velocity = Vec2::new(-1_900, 0);
    b.max_velocity = Vec2::new(2_000, 1_500);
    state.objects.push(b);
    let mut paddle = Object::new(ObjectType::PaddleRight).set_size(25_000, 140_000);
    paddle.position = Vec2::new(60_000, 80_000);
    state.objects.push(paddle);
    state.pause(false);

    state.update(16, W, H);
    let b = &state.objects[0];
    assert_eq!(b.velocity.x, 2_000);
    assert!(b.velocity.x.abs() <= b.max_velocity.x);
}

#[test]
fn paddle_bounce_deflection_is_clamped_to_one_unit() {
    // A strike far off the paddle's center: the raw deflection ratio
    // exceeds 1, so the vertical velocity comes out at exactly one unit
    // per millisecond.
    let mut state = GameState::new();
    let mut b = ball();
    b.position = Vec2::new(100_000, 20_000);
    b.velocity = Vec2::new(-1_000, 0);
    b.max_velocity = Vec2::new(2_000, 1_500);
    state.objects.push(b);
    let mut paddle = Object::new(ObjectType::PaddleRight).set_size(25_000, 140_000);
    paddle.position = Vec2::new(90_000, 25_000);
    state.objects.push(paddle);
    state.pause(false);

    state.update(16, W, H);
    assert_eq!(state.objects[0].velocity, Vec2::new(1_150, -1_000));
}

#[test]
fn ai_paddle_tracks_the_incoming_ball() {
    // The ball at (400, 300) heading straight left, the AI paddle at
    // x = 40: the ball is incoming and its track is flat, so the paddle
    // steers toward the ball's height.
    let mut state = GameState::new();
    let mut b = ball();
    b.position = Vec2::new(400_000, 300_000);
    b.velocity = Vec2::new(-1_000, 0);
    state.objects.push(b);
    let mut paddle = Object::new(ObjectType::PaddleLeft).set_size(25_000, 150_000);
    paddle.position = Vec2::new(40_000, 0);
    state.objects.push(paddle);
    state.ai_accuracy = 1_000;
    state.pause(false);

    state.update(16, W, H);
    // Gap to the target top edge: 300000 - 75000 - 0 = 225000; one tick
    // at full accuracy moves 16 * 0.0015 of it: 5400.
    assert_eq!(state.objects[1].position, Vec2::new(40_000, 5_400));
    // The ball itself just drifted left.
    assert_eq!(state.objects[0].position, Vec2::new(384_000, 300_000));
}

#[test]
fn controlled_paddle_gets_no_ai() {
    // The human-controlled paddle is passive in a tick, even with an
    // incoming ball: same setup as the AI tracking test, but with the
    // control index on the paddle — it does not move.
    let mut state = GameState::new();
    let mut b = ball();
    b.position = Vec2::new(400_000, 300_000);
    b.velocity = Vec2::new(-1_000, 0);
    state.objects.push(b);
    let mut paddle = Object::new(ObjectType::PaddleLeft).set_size(25_000, 150_000);
    paddle.position = Vec2::new(40_000, 0);
    state.objects.push(paddle);
    state.control_id = 1;
    state.ai_accuracy = 1_000;
    state.pause(false);

    state.update(16, W, H);
    assert_eq!(state.objects[1].position, Vec2::new(40_000, 0));
    assert_eq!(state.objects[1].velocity, Vec2::new(0, 0));
}

#[test]
fn ai_steers_the_right_paddle_when_left_is_controlled() {
    // With the human on the left paddle, the AI drives the right one: a
    // ball heading right is incoming for it, and the paddle steers.
    let mut state = GameState::new();
    let mut b = ball();
    b.position = Vec2::new(400_000, 300_000);
    b.velocity = Vec2::new(1_000, 0);
    state.objects.push(b);
    let mut left = Object::new(ObjectType::PaddleLeft).set_size(25_000, 150_000);
    left.position = Vec2::new(40_000, 0);
    state.objects.push(left);
    let mut right = Object::new(ObjectType::PaddleRight).set_size(25_000, 150_000);
    right.position = Vec2::new(735_000, 0);
    state.objects.push(right);
    state.control_id = 1;
    state.ai_accuracy = 1_000;
    state.pause(false);

    state.update(16, W, H);
    // The right paddle's center (747.5) lies beyond the ball, which
    // heads toward it: target 300, first step 5400 milli-units.
    assert_eq!(state.objects[2].position, Vec2::new(735_000, 5_400));
    // The controlled left paddle stayed put.
    assert_eq!(state.objects[1].position, Vec2::new(40_000, 0));
}

#[test]
fn ai_paddle_centers_when_ball_is_leaving() {
    // The ball heading away: the paddle steers toward the field's
    // vertical center instead.
    let mut state = GameState::new();
    let mut b = ball();
    b.position = Vec2::new(400_000, 100_000);
    b.velocity = Vec2::new(1_000, 0);
    state.objects.push(b);
    let mut paddle = Object::new(ObjectType::PaddleLeft).set_size(25_000, 150_000);
    paddle.position = Vec2::new(40_000, 0);
    state.objects.push(paddle);
    state.ai_accuracy = 1_000;
    state.pause(false);

    state.update(16, W, H);
    // Gap to the default target's top edge: 225000 - 75000 - 0 = 150000;
    // one tick at full accuracy moves 16 * 0.0015 of it: 3600.
    assert_eq!(state.objects[1].position.y, 3_600);
}

#[test]
fn zero_elapsed_time_moves_nothing() {
    let mut state = standard_state();
    state.reset_objects(W, H);
    state.pause(false);
    let before: Vec<Object> = state.objects.clone();
    state.update(0, W, H);
    assert_eq!(state.objects, before);
}

#[test]
fn update_with_no_objects_is_harmless() {
    let mut state = GameState::new();
    state.pause(false);
    state.update(16, W, H);
    assert!(state.objects.is_empty());
}
