//! The contact resolver: classifies "contact started" events reported by
//! the collision world and applies their consequences — collecting the
//! coin for a score bonus, triggering the goal object, or delivering a
//! landing to the actor with a snap-to-surface correction.
//!
//! The resolver is stateless across calls: its only effects are the
//! mutations applied to the entities passed in and the returned score
//! delta. Side cues (the pickup jingle, the music switch on reaching the
//! goal) are left to the caller, which can read them off the returned
//! delta and the goal object's collected flag.

use vstd::prelude::*;
use crate::types::{world_to_screen_coords, Vec2, POS_LIMIT, SUBUNITS, WINDOW_HEIGHT_SU,
    WINDOW_WIDTH_SU};
use crate::game_inputs::InputEvent;
use crate::player::{spec_input, Player, PlayerModel};
use crate::coin::Coin;
use crate::object::Object;

verus! {

/// Height of the actor's sprite, in subunits (167 world units), used by
/// the snap-to-surface correction.
pub const FERRIS_HEIGHT_SU: i64 = 167 * SUBUNITS;

/// Extra clearance added above a contacted surface, in subunits (50 world
/// units).
pub const SNAP_MARGIN_SU: i64 = 50 * SUBUNITS;

/// Score units granted for collecting the coin.
pub const COIN_SCORE: i32 = 1337;

/// A "contact started" notification from the collision world: the handles
/// of the two shapes that began touching, and the position of the first
/// (primary, non-actor) party in screen coordinates, used for the
/// snap-to-surface correction.
#[derive(Debug, Clone, Copy, PartialEq, Eq, Structural)]
pub struct ContactStarted {
    pub handle_a: u64,
    pub handle_b: u64,
    pub primary_pos: Vec2,
}

/// The Y coordinate an actor rests at after snapping onto a surface whose
/// primary position has the given screen-space Y coordinate.
pub open spec fn spec_snap_y(surface_y: int) -> int {
    WINDOW_HEIGHT_SU - (surface_y + WINDOW_HEIGHT_SU / 2) + FERRIS_HEIGHT_SU + SNAP_MARGIN_SU
}

/// The actor's state after a ground contact: a landing is delivered if the
/// actor was airborne, and the vertical position snaps onto the contacted
/// surface either way.
pub open spec fn spec_ground_contact(m: PlayerModel, surface_y: int) -> PlayerModel {
    let m1 = if !m.grounded {
        spec_input(m, InputEvent::Landed)
    } else {
        m
    };
    PlayerModel { pos_y: spec_snap_y(surface_y), ..m1 }
}

/// Resolves one contact event and returns the score delta it produced.
///
/// A contact involving the coin's shape collects the coin (once — a
/// repeat contact is a no-op) and scores `COIN_SCORE`. Otherwise a contact
/// involving the goal object's shape triggers it, once, without score.
/// Any other contact is treated as the ground: an airborne actor receives
/// a landing, and the actor's vertical position is corrected to rest on
/// top of the contacted surface.
pub fn handle_contact_event(
    player: &mut Player,
    coin: &mut Coin,
    vending: &mut Object,
    event: &ContactStarted,
) -> (s: i32)
    requires
        old(coin).col_handle is Some,
        old(vending).col_handle is Some,
        old(player)@.wf(),
        -POS_LIMIT <= event.primary_pos.x <= POS_LIMIT,
        -POS_LIMIT <= event.primary_pos.y <= POS_LIMIT,
    ensures
        ({
            let ch = old(coin).col_handle->0;
            let vh = old(vending).col_handle->0;
            let hit_coin = event.handle_a == ch || event.handle_b == ch;
            let hit_vending = !hit_coin && (event.handle_a == vh || event.handle_b == vh);
            &&& hit_coin ==> {
                &&& *final(player) == *old(player)
                &&& *final(vending) == *old(vending)
                &&& if old(coin).pickedup {
                    *final(coin) == *old(coin) && s == 0
                } else {
                    *final(coin) == (Coin { pickedup: true, ..*old(coin) }) && s == COIN_SCORE
                }
            }
            &&& hit_vending ==> {
                &&& *final(player) == *old(player)
                &&& *final(coin) == *old(coin)
                &&& if old(vending).pickedup {
                    *final(vending) == *old(vending)
                } else {
                    *final(vending) == (Object { pickedup: true, ..*old(vending) })
                }
                &&& s == 0
            }
            &&& !hit_coin && !hit_vending ==> {
                &&& *final(coin) == *old(coin)
                &&& *final(vending) == *old(vending)
                &&& final(player)@ == spec_ground_contact(old(player)@, event.primary_pos.y as int)
                &&& s == 0
            }
        }),
{
    let mut s: i32 = 0;
    let coin_handle: u64 = coin.getColHandle();
    let vending_handle: u64 = vending.getColHandle();
    if event.handle_a == coin_handle || event.handle_b == coin_handle {
        if !coin.isPickedUp() {
            coin.pickUpCoin();
            s = COIN_SCORE;
        }
    } else if event.handle_a == vending_handle || event.handle_b == vending_handle {
        if !vending.isPickedUp() {
            vending.pickUpObject();
        }
    } else {
        if !player.grounded {
            player.input(InputEvent::Landed);
        }
        let screen: Vec2 = world_to_screen_coords(WINDOW_WIDTH_SU, WINDOW_HEIGHT_SU, event.primary_pos);
        player.pos.y = screen.y + FERRIS_HEIGHT_SU + SNAP_MARGIN_SU;
    }
    s
}

} // verus!
