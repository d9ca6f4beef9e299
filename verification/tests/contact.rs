//! Tests for the contact resolver and coordinate conversion.

use platform_core::coin::{Coin, COIN_START_X_SU, COIN_START_Y_SU};
use platform_core::contact::{handle_contact_event, ContactStarted, COIN_SCORE, FERRIS_HEIGHT_SU,
    SNAP_MARGIN_SU};
use platform_core::game_inputs::Direction;
use platform_core::object::{Object, OBJECT_COL_OFFSET_X_SU};
use platform_core::player::{Player, PlayerState};
use platform_core::types::{world_to_screen_coords, CollisionObjectData, Vec2, WINDOW_HEIGHT_SU,
    WINDOW_WIDTH_SU};

const GROUND_HANDLE: u64 = 1;
const PLAYER_HANDLE: u64 = 2;
const COIN_HANDLE: u64 = 3;
const VENDING_HANDLE: u64 = 4;

fn setup() -> (Player, Coin, Object) {
    let mut player = Player::new(Vec2 { x: 0, y: 0 }, 100, Some(Direction::Right));
    player.set_col_handle(PLAYER_HANDLE);
    let mut coin = Coin::new(Vec2 { x: 0, y: 0 });
    coin.set_col_handle(COIN_HANDLE);
    let mut vending = Object::new(Vec2 { x: 33000, y: -6300 });
    vending.set_col_handle(VENDING_HANDLE);
    (player, coin, vending)
}

#[test]
fn coin_contact_scores_once() {
    let (mut player, mut coin, mut vending) = setup();
    let event = ContactStarted {
        handle_a: COIN_HANDLE,
        handle_b: PLAYER_HANDLE,
        primary_pos: Vec2 { x: 0, y: 0 },
    };
    let s = handle_contact_event(&mut player, &mut coin, &mut vending, &event);
    assert_eq!(s, COIN_SCORE);
    assert_eq!(s, 1337);
    assert!(coin.pickedup);
    assert!(!vending.pickedup);

    // a second identical contact is a no-op: no double scoring
    let before = coin.clone();
    let s2 = handle_contact_event(&mut player, &mut coin, &mut vending, &event);
    assert_eq!(s2, 0);
    assert_eq!(coin, before);
}

#[test]
fn coin_handle_matches_either_side() {
    let (mut player, mut coin, mut vending) = setup();
    let event = ContactStarted {
        handle_a: PLAYER_HANDLE,
        handle_b: COIN_HANDLE,
        primary_pos: Vec2 { x: 0, y: 0 },
    };
    let s = handle_contact_event(&mut player, &mut coin, &mut vending, &event);
    assert_eq!(s, COIN_SCORE);
    assert!(coin.pickedup);
}

#[test]
fn vending_contact_triggers_once_without_score() {
    let (mut player, mut coin, mut vending) = setup();
    let event = ContactStarted {
        handle_a: VENDING_HANDLE,
        handle_b: PLAYER_HANDLE,
        primary_pos: Vec2 { x: 0, y: 0 },
    };
    let s = handle_contact_event(&mut player, &mut coin, &mut vending, &event);
    assert_eq!(s, 0);
    assert!(vending.pickedup);
    assert!(!coin.pickedup);

    let before = vending.clone();
    let s2 = handle_contact_event(&mut player, &mut coin, &mut vending, &event);
    assert_eq!(s2, 0);
    assert_eq!(vending, before);
}

#[test]
fn ground_contact_lands_and_snaps() {
    let (mut player, mut coin, mut vending) = setup();
    assert!(!player.grounded);
    player.velocity.y = -500;
    let surface_y: i64 = 62400;
    let event = ContactStarted {
        handle_a: GROUND_HANDLE,
        handle_b: PLAYER_HANDLE,
        primary_pos: Vec2 { x: 0, y: surface_y },
    };
    let s = handle_contact_event(&mut player, &mut coin, &mut vending, &event);
    assert_eq!(s, 0);
    assert!(player.grounded);
    assert_eq!(player.velocity.y, 0);
    // landing with the initial rightward intent still held resumes walking
    assert_eq!(player.currentState, PlayerState::Walking);
    let expected_y =
        WINDOW_HEIGHT_SU - (surface_y + WINDOW_HEIGHT_SU / 2) + FERRIS_HEIGHT_SU + SNAP_MARGIN_SU;
    assert_eq!(player.pos.y, expected_y);
    assert_eq!(player.pos.y, -16980);
}

#[test]
fn ground_contact_while_grounded_only_resnaps() {
    let (mut player, mut coin, mut vending) = setup();
    player.grounded = true;
    player.currentState = PlayerState::Idle;
    player.moving = false;
    let before_state = player.currentState;
    let event = ContactStarted {
        handle_a: GROUND_HANDLE,
        handle_b: PLAYER_HANDLE,
        primary_pos: Vec2 { x: 0, y: 62400 },
    };
    let s = handle_contact_event(&mut player, &mut coin, &mut vending, &event);
    assert_eq!(s, 0);
    assert_eq!(player.currentState, before_state);
    assert!(player.grounded);
    assert_eq!(player.pos.y, -16980);
    // no step request is enqueued when the landing is a no-op
    assert_eq!(player.step_queue.items.len(), 0);
}

#[test]
fn coin_spawns_at_fixed_spot() {
    let coin = Coin::new(Vec2 { x: 999, y: 999 });
    assert_eq!(coin.pos, Vec2 { x: COIN_START_X_SU, y: COIN_START_Y_SU });
    assert_eq!(coin.pos, Vec2 { x: 12600, y: -16200 });
    assert!(!coin.pickedup);
    assert_eq!(coin.col_handle, None);
}

#[test]
fn object_spawns_where_asked() {
    let vending = Object::new(Vec2 { x: 33000, y: -6300 });
    assert_eq!(vending.pos, Vec2 { x: 33000, y: -6300 });
    assert!(!vending.pickedup);
}

#[test]
fn handle_registration_round_trip() {
    let mut coin = Coin::new(Vec2 { x: 0, y: 0 });
    coin.set_col_handle(7);
    assert_eq!(coin.getColHandle(), 7);
    coin.removeColHandle();
    assert_eq!(coin.col_handle, None);
    let mut vending = Object::new(Vec2 { x: 0, y: 0 });
    vending.set_col_handle(9);
    assert_eq!(vending.getColHandle(), 9);
    vending.removeColHandle();
    assert_eq!(vending.col_handle, None);
}

#[test]
fn world_to_screen_flips_and_centres() {
    let r = world_to_screen_coords(WINDOW_WIDTH_SU, WINDOW_HEIGHT_SU, Vec2 { x: 0, y: 0 });
    assert_eq!(r, Vec2 { x: 57600, y: 32400 });
    let r2 = world_to_screen_coords(WINDOW_WIDTH_SU, WINDOW_HEIGHT_SU, Vec2 { x: -57600, y: 32400 });
    assert_eq!(r2, Vec2 { x: 0, y: 0 });
    let r3 = world_to_screen_coords(WINDOW_WIDTH_SU, WINDOW_HEIGHT_SU, Vec2 { x: 0, y: -30000 });
    assert_eq!(r3.y, 62400);
}

#[test]
fn shapes_sync_to_screen_space() {
    let (mut player, coin, vending) = setup();
    player.pos = Vec2 { x: -57600, y: 32400 };
    assert_eq!(player.sync_position(), Vec2 { x: 0, y: 0 });
    // the coin's fixed spot, translated to screen space
    assert_eq!(coin.sync_position(), Vec2 { x: 57600 + 12600, y: 32400 + 16200 });
    // the object's collision shape sits a fixed offset right of its sprite
    let base = world_to_screen_coords(WINDOW_WIDTH_SU, WINDOW_HEIGHT_SU, vending.pos);
    let synced = vending.sync_position();
    assert_eq!(synced.x, base.x + OBJECT_COL_OFFSET_X_SU);
    assert_eq!(synced.y, base.y);
}

#[test]
fn collision_object_data_keeps_its_fields() {
    let d = CollisionObjectData::new("ground", None);
    assert_eq!(d.name, "ground");
    assert_eq!(d.velocity, None);
    let m = CollisionObjectData::new("platform", Some(Vec2 { x: 5, y: 0 }));
    assert_eq!(m.velocity, Some(Vec2 { x: 5, y: 0 }));
}
