//! Behavioral tests for the motion state machine.

use platform_core::game_inputs::{Direction, InputEvent};
use platform_core::player::{
    jump_duration, Player, PlayerState, FALL_ACCEL, JUMP_BASE_TICKS, JUMP_SPEED, LEFT_EDGE_CLAMP_X,
    LEFT_EDGE_X, MAX_FALL_SPEED, MAX_MOVE_SPEED, MOVE_ACCEL, RIGHT_EDGE_CLAMP_X, RIGHT_EDGE_X,
    STOP_ACCEL,
};
use platform_core::types::Vec2;

fn spawn() -> Player {
    Player::new(Vec2 { x: 0, y: 0 }, 100, None)
}

fn grounded_idle() -> Player {
    let mut p = spawn();
    p.grounded = true;
    p.currentState = PlayerState::Idle;
    p
}

#[test]
fn spawn_state_is_airborne_jumping() {
    let p = spawn();
    assert_eq!(p.currentState, PlayerState::Jumping);
    assert!(!p.grounded);
    assert_eq!(p.velocity, Vec2 { x: 0, y: 0 });
    assert!(!p.moving);
    assert_eq!(p.dir, Direction::Right);
}

#[test]
fn scenario_walk_right_gains_move_accel() {
    let mut p = grounded_idle();
    p.input(InputEvent::UpdateMovement(Some(Direction::Right)));
    assert_eq!(p.currentState, PlayerState::Walking);
    p.step();
    assert_eq!(p.velocity.x, MOVE_ACCEL);
    assert_eq!(p.velocity.y, 0);
    assert_eq!(p.currentState, PlayerState::Walking);
    assert!(p.grounded);
}

#[test]
fn scenario_jump_launch_sets_impulse() {
    let mut p = grounded_idle();
    p.jump();
    assert_eq!(p.currentState, PlayerState::Jumping);
    assert_eq!(p.velocity.y, JUMP_SPEED);
    assert!(!p.grounded);
    assert_eq!(p.jump_time, p.time + JUMP_BASE_TICKS);
}

#[test]
fn press_jump_steps_same_frame() {
    let mut p = grounded_idle();
    p.input(InputEvent::PressJump);
    assert_eq!(p.currentState, PlayerState::Jumping);
    assert!(!p.grounded);
    // the forced same-frame step applies one tick of gravity after launch
    assert_eq!(p.velocity.y, JUMP_SPEED - FALL_ACCEL);
    // the forced step drained the request the launch enqueued
    assert_eq!(p.step_queue.items.len(), 0);
}

#[test]
fn press_jump_while_jumping_is_noop() {
    let mut p = spawn();
    let before = p.clone();
    p.input(InputEvent::PressJump);
    assert_eq!(p, before);
}

#[test]
fn scenario_airborne_settled_begins_falling() {
    let mut p = spawn();
    assert_eq!(p.velocity.y, 0);
    p.step();
    assert_eq!(p.velocity.y, -FALL_ACCEL);
    assert!(!p.grounded);
    assert_eq!(p.currentState, PlayerState::Jumping);
}

#[test]
fn horizontal_speed_never_exceeds_limit() {
    let mut p = grounded_idle();
    p.input(InputEvent::UpdateMovement(Some(Direction::Right)));
    p.velocity.x = MAX_MOVE_SPEED - 50;
    for _ in 0..10 {
        p.step();
        assert!(p.velocity.x.abs() <= MAX_MOVE_SPEED);
    }
    assert_eq!(p.velocity.x, MAX_MOVE_SPEED);
}

#[test]
fn grounded_stop_brakes_harder_than_accel() {
    let mut p = grounded_idle();
    p.velocity.x = 500;
    p.step();
    assert_eq!(p.velocity.x, 500 - STOP_ACCEL);
    p.step();
    assert_eq!(p.velocity.x, 0);
}

#[test]
fn reversing_sheds_speed_before_turning() {
    let mut p = grounded_idle();
    p.velocity.x = 300;
    p.input(InputEvent::UpdateMovement(Some(Direction::Left)));
    p.step();
    // braking magnitude applies while still drifting right
    assert_eq!(p.velocity.x, 300 - STOP_ACCEL);
}

#[test]
fn airborne_momentum_is_preserved() {
    let mut p = spawn();
    p.velocity.x = 200;
    p.step();
    assert_eq!(p.velocity.x, 200);
}

#[test]
fn fall_speed_is_clamped_while_jumping() {
    let mut p = spawn();
    p.velocity.y = -(MAX_FALL_SPEED - 100);
    p.step();
    assert_eq!(p.velocity.y, -MAX_FALL_SPEED);
}

#[test]
fn landed_grounds_and_settles() {
    let mut p = spawn();
    p.velocity.y = -500;
    p.input(InputEvent::Landed);
    assert!(p.grounded);
    assert_eq!(p.velocity.y, 0);
    assert_eq!(p.currentState, PlayerState::Idle);
}

#[test]
fn landed_twice_changes_state_only_once() {
    let mut p = spawn();
    p.velocity.y = -500;
    p.input(InputEvent::Landed);
    let after_first = p.clone();
    p.input(InputEvent::Landed);
    assert_eq!(p, after_first);
}

#[test]
fn landed_with_held_intent_resumes_walking() {
    let mut p = spawn();
    p.input(InputEvent::UpdateMovement(Some(Direction::Left)));
    assert_eq!(p.currentState, PlayerState::Jumping);
    p.input(InputEvent::Landed);
    assert_eq!(p.currentState, PlayerState::Walking);
    assert!(p.moving);
    assert_eq!(p.dir, Direction::Left);
}

#[test]
fn stop_event_enters_idle_when_grounded() {
    let mut p = grounded_idle();
    p.input(InputEvent::UpdateMovement(Some(Direction::Right)));
    assert_eq!(p.currentState, PlayerState::Walking);
    p.input(InputEvent::UpdateMovement(None));
    assert_eq!(p.currentState, PlayerState::Idle);
    assert!(!p.moving);
}

#[test]
fn jump_duration_grows_with_speed() {
    assert_eq!(jump_duration(0), 1260);
    assert_eq!(jump_duration(300), 1560);
    assert_eq!(jump_duration(600), 1860);
    let mut last = jump_duration(0);
    for v in 1..=600 {
        let d = jump_duration(v);
        assert!(d >= last);
        last = d;
    }
}

#[test]
fn jump_timer_uses_absolute_speed() {
    let mut p = grounded_idle();
    p.velocity.x = -300;
    p.jump();
    assert_eq!(p.jump_time, p.time + jump_duration(300));
}

#[test]
fn world_bounds_pull_back_from_right_edge() {
    let mut p = grounded_idle();
    p.pos.x = RIGHT_EDGE_X + 60;
    p.velocity.x = 400;
    p.apply_world_bounds();
    assert_eq!(p.pos.x, RIGHT_EDGE_CLAMP_X);
    assert_eq!(p.velocity.x, 0);
    assert_eq!(p.currentState, PlayerState::Idle);
}

#[test]
fn world_bounds_pull_back_from_left_edge() {
    let mut p = grounded_idle();
    p.pos.x = LEFT_EDGE_X - 1;
    p.apply_world_bounds();
    assert_eq!(p.pos.x, LEFT_EDGE_CLAMP_X);
    assert_eq!(p.velocity.x, 0);
}

#[test]
fn world_bounds_leave_interior_alone() {
    let mut p = grounded_idle();
    p.pos.x = 0;
    p.velocity.x = 200;
    let before = p.clone();
    p.apply_world_bounds();
    assert_eq!(p, before);
}

#[test]
fn position_integrates_velocity() {
    let mut p = grounded_idle();
    p.input(InputEvent::UpdateMovement(Some(Direction::Right)));
    let x0 = p.pos.x;
    p.step();
    assert_eq!(p.pos.x, x0 + MOVE_ACCEL);
}
